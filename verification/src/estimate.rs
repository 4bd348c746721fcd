//! The cost estimator.
//!
//! Given an operation code and an ordered list of operands, the estimator
//! returns the number of bytes the operation will additionally require on
//! the device.  It validates the operand count against the operation's
//! fixed arity and the operand variants against the operation's legal
//! shapes, decodes destination-type tags from scalar operands, and looks
//! the leaf cost up in a table.  The leaf numbers themselves come from the
//! accelerator runtime, which alone knows what each primitive costs on a
//! device; they enter this module as a [`CostModel`] filled in at startup.
//! Every branch is a pure function of the operation and the operand shapes:
//! nothing here allocates or touches device state.

use vstd::prelude::*;

verus! {

use crate::coerce::{be_value, BitWidth};
use crate::fault::Fault;
use crate::value::{CiphertextKind, SupportedFheCiphertexts, spec_kind};

/// The supported operations.  Arithmetic, bitwise, shift and rotate,
/// comparison, selection, conversion and randomness; each has a fixed arity
/// of one, two or three operands.
#[derive(Clone, Copy, Debug, PartialEq, Eq, Structural)]
pub enum SupportedFheOperations {
    FheAdd,
    FheSub,
    FheMul,
    FheDiv,
    FheRem,
    FheBitAnd,
    FheBitOr,
    FheBitXor,
    FheShl,
    FheShr,
    FheRotl,
    FheRotr,
    FheEq,
    FheNe,
    FheGe,
    FheGt,
    FheLe,
    FheLt,
    FheMin,
    FheMax,
    FheNeg,
    FheNot,
    FheCast,
    FheTrivialEncrypt,
    FheIfThenElse,
    FheRand,
    FheRandBounded,
}

/// The operation a numeric operation code names, counted in the order the
/// variants are declared: `FheAdd` is 0 and `FheRandBounded` is 26.
pub open spec fn spec_op_from_code(code: i16) -> Option<SupportedFheOperations> {
    match code {
        0 => Some(SupportedFheOperations::FheAdd),
        1 => Some(SupportedFheOperations::FheSub),
        2 => Some(SupportedFheOperations::FheMul),
        3 => Some(SupportedFheOperations::FheDiv),
        4 => Some(SupportedFheOperations::FheRem),
        5 => Some(SupportedFheOperations::FheBitAnd),
        6 => Some(SupportedFheOperations::FheBitOr),
        7 => Some(SupportedFheOperations::FheBitXor),
        8 => Some(SupportedFheOperations::FheShl),
        9 => Some(SupportedFheOperations::FheShr),
        10 => Some(SupportedFheOperations::FheRotl),
        11 => Some(SupportedFheOperations::FheRotr),
        12 => Some(SupportedFheOperations::FheEq),
        13 => Some(SupportedFheOperations::FheNe),
        14 => Some(SupportedFheOperations::FheGe),
        15 => Some(SupportedFheOperations::FheGt),
        16 => Some(SupportedFheOperations::FheLe),
        17 => Some(SupportedFheOperations::FheLt),
        18 => Some(SupportedFheOperations::FheMin),
        19 => Some(SupportedFheOperations::FheMax),
        20 => Some(SupportedFheOperations::FheNeg),
        21 => Some(SupportedFheOperations::FheNot),
        22 => Some(SupportedFheOperations::FheCast),
        23 => Some(SupportedFheOperations::FheTrivialEncrypt),
        24 => Some(SupportedFheOperations::FheIfThenElse),
        25 => Some(SupportedFheOperations::FheRand),
        26 => Some(SupportedFheOperations::FheRandBounded),
        _ => None,
    }
}

/// The part of an operand that determines cost: its ciphertext kind, or for
/// a plaintext operand the scalar bytes (which carry type tags).
pub enum OperandShape {
    Ciphertext(CiphertextKind),
    Scalar(Seq<u8>),
}

/// The shape of one operand.
pub open spec fn shape_of(v: SupportedFheCiphertexts) -> OperandShape {
    match v {
        SupportedFheCiphertexts::Scalar(b) => OperandShape::Scalar(b@),
        SupportedFheCiphertexts::FheBool(_) => OperandShape::Ciphertext(CiphertextKind::Bool),
        SupportedFheCiphertexts::FheUint4(_) => OperandShape::Ciphertext(CiphertextKind::Uint4),
        SupportedFheCiphertexts::FheUint8(_) => OperandShape::Ciphertext(CiphertextKind::Uint8),
        SupportedFheCiphertexts::FheUint16(_) => OperandShape::Ciphertext(CiphertextKind::Uint16),
        SupportedFheCiphertexts::FheUint32(_) => OperandShape::Ciphertext(CiphertextKind::Uint32),
        SupportedFheCiphertexts::FheUint64(_) => OperandShape::Ciphertext(CiphertextKind::Uint64),
        SupportedFheCiphertexts::FheUint128(_) => OperandShape::Ciphertext(
            CiphertextKind::Uint128,
        ),
        SupportedFheCiphertexts::FheUint160(_) => OperandShape::Ciphertext(
            CiphertextKind::Uint160,
        ),
        SupportedFheCiphertexts::FheUint256(_) => OperandShape::Ciphertext(
            CiphertextKind::Uint256,
        ),
        SupportedFheCiphertexts::FheBytes64(_) => OperandShape::Ciphertext(
            CiphertextKind::Bytes64,
        ),
        SupportedFheCiphertexts::FheBytes128(_) => OperandShape::Ciphertext(
            CiphertextKind::Bytes128,
        ),
        SupportedFheCiphertexts::FheBytes256(_) => OperandShape::Ciphertext(
            CiphertextKind::Bytes256,
        ),
    }
}

/// The shapes of an operand list.
pub open spec fn shapes_of(vs: Seq<SupportedFheCiphertexts>) -> Seq<OperandShape> {
    vs.map_values(|v: SupportedFheCiphertexts| shape_of(v))
}

/// Whether the operation takes two operands.
pub open spec fn is_binary_op(op: SupportedFheOperations) -> bool {
    is_arith_op(op) || is_bitwise_op(op) || is_shift_op(op) || is_compare_op(op)
}

/// Arithmetic on sized unsigned integers.
pub open spec fn is_arith_op(op: SupportedFheOperations) -> bool {
    match op {
        SupportedFheOperations::FheAdd
        | SupportedFheOperations::FheSub
        | SupportedFheOperations::FheMul
        | SupportedFheOperations::FheDiv
        | SupportedFheOperations::FheRem => true,
        _ => false,
    }
}

/// Bitwise and, or, xor.
pub open spec fn is_bitwise_op(op: SupportedFheOperations) -> bool {
    match op {
        SupportedFheOperations::FheBitAnd
        | SupportedFheOperations::FheBitOr
        | SupportedFheOperations::FheBitXor => true,
        _ => false,
    }
}

/// Shifts and rotates.
pub open spec fn is_shift_op(op: SupportedFheOperations) -> bool {
    match op {
        SupportedFheOperations::FheShl
        | SupportedFheOperations::FheShr
        | SupportedFheOperations::FheRotl
        | SupportedFheOperations::FheRotr => true,
        _ => false,
    }
}

/// Comparisons, including minimum and maximum.
pub open spec fn is_compare_op(op: SupportedFheOperations) -> bool {
    match op {
        SupportedFheOperations::FheEq
        | SupportedFheOperations::FheNe
        | SupportedFheOperations::FheGe
        | SupportedFheOperations::FheGt
        | SupportedFheOperations::FheLe
        | SupportedFheOperations::FheLt
        | SupportedFheOperations::FheMin
        | SupportedFheOperations::FheMax => true,
        _ => false,
    }
}

/// Equality and inequality tests, which alone among comparisons accept
/// boolean and byte-string operands on both sides.
pub open spec fn is_eq_ne_op(op: SupportedFheOperations) -> bool {
    match op {
        SupportedFheOperations::FheEq | SupportedFheOperations::FheNe => true,
        _ => false,
    }
}

/// Ordering comparisons.
pub open spec fn is_order_op(op: SupportedFheOperations) -> bool {
    match op {
        SupportedFheOperations::FheGe
        | SupportedFheOperations::FheGt
        | SupportedFheOperations::FheLe
        | SupportedFheOperations::FheLt => true,
        _ => false,
    }
}

/// Minimum and maximum.
pub open spec fn is_min_max_op(op: SupportedFheOperations) -> bool {
    match op {
        SupportedFheOperations::FheMin | SupportedFheOperations::FheMax => true,
        _ => false,
    }
}

/// A sized unsigned-integer kind.
pub open spec fn is_uint_kind(k: CiphertextKind) -> bool {
    match k {
        CiphertextKind::Uint4
        | CiphertextKind::Uint8
        | CiphertextKind::Uint16
        | CiphertextKind::Uint32
        | CiphertextKind::Uint64
        | CiphertextKind::Uint128
        | CiphertextKind::Uint160
        | CiphertextKind::Uint256 => true,
        _ => false,
    }
}

/// A fixed-length encrypted byte-string kind.
pub open spec fn is_bytes_kind(k: CiphertextKind) -> bool {
    match k {
        CiphertextKind::Bytes64 | CiphertextKind::Bytes128 | CiphertextKind::Bytes256 => true,
        _ => false,
    }
}

/// The fixed number of operands the operation takes.
pub open spec fn arity(op: SupportedFheOperations) -> int {
    if is_binary_op(op) {
        2
    } else {
        match op {
            SupportedFheOperations::FheNeg | SupportedFheOperations::FheNot => 1,
            SupportedFheOperations::FheIfThenElse | SupportedFheOperations::FheRandBounded => 3,
            _ => 2,
        }
    }
}

/// Whether a binary operation accepts two ciphertexts of kind `k`.
/// Arithmetic is integers only; bitwise and equality accept every kind;
/// shifts, rotates, ordering, minimum and maximum accept integers and byte
/// strings but not booleans.
pub open spec fn binary_ct_ct_legal(op: SupportedFheOperations, k: CiphertextKind) -> bool {
    if is_arith_op(op) {
        is_uint_kind(k)
    } else if is_bitwise_op(op) || is_eq_ne_op(op) {
        true
    } else if is_shift_op(op) || is_order_op(op) || is_min_max_op(op) {
        is_uint_kind(k) || is_bytes_kind(k)
    } else {
        false
    }
}

/// Whether a binary operation accepts a ciphertext of kind `k` with a
/// plaintext scalar on the right.  As with two ciphertexts, except that
/// minimum and maximum take no scalar beside a byte string, ordering
/// comparisons take a scalar beside a boolean (promoted to a small integer
/// width) but not beside a byte string.
pub open spec fn binary_ct_scalar_legal(op: SupportedFheOperations, k: CiphertextKind) -> bool {
    if is_arith_op(op) || is_min_max_op(op) {
        is_uint_kind(k)
    } else if is_bitwise_op(op) || is_eq_ne_op(op) {
        true
    } else if is_shift_op(op) {
        is_uint_kind(k) || is_bytes_kind(k)
    } else if is_order_op(op) {
        is_uint_kind(k) || k == CiphertextKind::Bool
    } else {
        false
    }
}

/// Whether a unary operation accepts a ciphertext of kind `k`: bitwise not
/// accepts every kind, negation only sized unsigned integers.
pub open spec fn unary_legal(op: SupportedFheOperations, k: CiphertextKind) -> bool {
    match op {
        SupportedFheOperations::FheNot => true,
        _ => is_uint_kind(k),
    }
}

/// A dense index for the twelve ciphertext kinds, in declaration order.
pub open spec fn kind_index(k: CiphertextKind) -> int {
    match k {
        CiphertextKind::Bool => 0,
        CiphertextKind::Uint4 => 1,
        CiphertextKind::Uint8 => 2,
        CiphertextKind::Uint16 => 3,
        CiphertextKind::Uint32 => 4,
        CiphertextKind::Uint64 => 5,
        CiphertextKind::Uint128 => 6,
        CiphertextKind::Uint160 => 7,
        CiphertextKind::Uint256 => 8,
        CiphertextKind::Bytes64 => 9,
        CiphertextKind::Bytes128 => 10,
        CiphertextKind::Bytes256 => 11,
    }
}

/// A dense index for the twenty binary operations, in declaration order;
/// meaningful only when `is_binary_op` holds.
pub open spec fn binary_index(op: SupportedFheOperations) -> int {
    match op {
        SupportedFheOperations::FheAdd => 0,
        SupportedFheOperations::FheSub => 1,
        SupportedFheOperations::FheMul => 2,
        SupportedFheOperations::FheDiv => 3,
        SupportedFheOperations::FheRem => 4,
        SupportedFheOperations::FheBitAnd => 5,
        SupportedFheOperations::FheBitOr => 6,
        SupportedFheOperations::FheBitXor => 7,
        SupportedFheOperations::FheShl => 8,
        SupportedFheOperations::FheShr => 9,
        SupportedFheOperations::FheRotl => 10,
        SupportedFheOperations::FheRotr => 11,
        SupportedFheOperations::FheEq => 12,
        SupportedFheOperations::FheNe => 13,
        SupportedFheOperations::FheGe => 14,
        SupportedFheOperations::FheGt => 15,
        SupportedFheOperations::FheLe => 16,
        SupportedFheOperations::FheLt => 17,
        SupportedFheOperations::FheMin => 18,
        SupportedFheOperations::FheMax => 19,
        _ => 0,
    }
}

/// Position of a binary-op leaf cost in the binary table: by operation, then
/// operand kind, then whether the right-hand side is a plaintext scalar.
pub open spec fn binary_entry(op: SupportedFheOperations, k: CiphertextKind, scalar_rhs: bool) -> int {
    (binary_index(op) * 12 + kind_index(k)) * 2 + if scalar_rhs {
        1int
    } else {
        0int
    }
}

/// Position of a unary-op leaf cost in the unary table: bitwise not first,
/// negation second, by operand kind within each.
pub open spec fn unary_entry(op: SupportedFheOperations, k: CiphertextKind) -> int {
    (if op == SupportedFheOperations::FheNot {
        0int
    } else {
        12int
    }) + kind_index(k)
}

/// The bit-width a plaintext scalar is coerced to when it stands beside a
/// ciphertext of kind `k` in a mixed operation: the ciphertext's own width,
/// with booleans promoted to a small integer width and a byte string of
/// `n` bytes taking `8 * n` bits.
pub open spec fn spec_scalar_width_for(k: CiphertextKind) -> BitWidth {
    match k {
        CiphertextKind::Bool => BitWidth::W4,
        CiphertextKind::Uint4 => BitWidth::W4,
        CiphertextKind::Uint8 => BitWidth::W8,
        CiphertextKind::Uint16 => BitWidth::W16,
        CiphertextKind::Uint32 => BitWidth::W32,
        CiphertextKind::Uint64 => BitWidth::W64,
        CiphertextKind::Uint128 => BitWidth::W128,
        CiphertextKind::Uint160 => BitWidth::W160,
        CiphertextKind::Uint256 => BitWidth::W256,
        CiphertextKind::Bytes64 => BitWidth::W512,
        CiphertextKind::Bytes128 => BitWidth::W1024,
        CiphertextKind::Bytes256 => BitWidth::W2048,
    }
}

/// The coercion width for a scalar standing beside a ciphertext of kind
/// `k`; see `crate::coerce::coerce_to_width` for the coercion itself.
pub fn scalar_width_for(k: CiphertextKind) -> (w: BitWidth)
    ensures
        w == spec_scalar_width_for(k),
{
    match k {
        CiphertextKind::Bool => BitWidth::W4,
        CiphertextKind::Uint4 => BitWidth::W4,
        CiphertextKind::Uint8 => BitWidth::W8,
        CiphertextKind::Uint16 => BitWidth::W16,
        CiphertextKind::Uint32 => BitWidth::W32,
        CiphertextKind::Uint64 => BitWidth::W64,
        CiphertextKind::Uint128 => BitWidth::W128,
        CiphertextKind::Uint160 => BitWidth::W160,
        CiphertextKind::Uint256 => BitWidth::W256,
        CiphertextKind::Bytes64 => BitWidth::W512,
        CiphertextKind::Bytes128 => BitWidth::W1024,
        CiphertextKind::Bytes256 => BitWidth::W2048,
    }
}

/// The destination-type tag carried in a scalar operand: its bytes read as
/// a big-endian number truncated to 16 bits.
pub open spec fn tag_of(bytes: Seq<u8>) -> nat {
    be_value(bytes) % 0x10000
}

/// Binary-op entries: 20 operations by 12 kinds by 2 right-hand forms.
pub const BINARY_COST_ENTRIES: usize = 480;

/// Unary-op entries: 2 operations by 12 kinds.
pub const UNARY_COST_ENTRIES: usize = 24;

/// One entry per ciphertext kind or destination-type tag.
pub const PER_KIND_COST_ENTRIES: usize = 12;

/// The leaf device costs the estimator dispatches into, filled in at
/// startup from the accelerator runtime's per-primitive cost queries.
pub struct CostModel {
    /// Binary-op cost at `binary_entry(op, kind, scalar_rhs)`.
    pub binary: Vec<u64>,
    /// Unary-op cost at `unary_entry(op, kind)`.
    pub unary: Vec<u64>,
    /// Selection cost by branch kind (boolean branches are promoted to a
    /// small integer width before costing; the boolean entry carries that
    /// promoted cost).
    pub select: Vec<u64>,
    /// Size of one trivially-encrypted unit of each destination type, by
    /// type tag.
    pub trivial: Vec<u64>,
    /// Cost of generating one oblivious pseudo-random value, by output-width
    /// tag.
    pub rand: Vec<u64>,
    /// The bounded variant of the generation cost, by output-width tag.
    pub rand_bounded: Vec<u64>,
}

impl CostModel {
    /// Every table has its full complement of entries.
    pub open spec fn wf(&self) -> bool {
        &&& self.binary@.len() == BINARY_COST_ENTRIES
        &&& self.unary@.len() == UNARY_COST_ENTRIES
        &&& self.select@.len() == PER_KIND_COST_ENTRIES
        &&& self.trivial@.len() == PER_KIND_COST_ENTRIES
        &&& self.rand@.len() == PER_KIND_COST_ENTRIES
        &&& self.rand_bounded@.len() == PER_KIND_COST_ENTRIES
    }

    /// A model from the six leaf-cost tables; refused unless every table
    /// has exactly its expected number of entries.
    pub fn new(
        binary: Vec<u64>,
        unary: Vec<u64>,
        select: Vec<u64>,
        trivial: Vec<u64>,
        rand: Vec<u64>,
        rand_bounded: Vec<u64>,
    ) -> (r: Option<CostModel>)
        ensures
            r is Some <==> binary@.len() == BINARY_COST_ENTRIES && unary@.len()
                == UNARY_COST_ENTRIES && select@.len() == PER_KIND_COST_ENTRIES && trivial@.len()
                == PER_KIND_COST_ENTRIES && rand@.len() == PER_KIND_COST_ENTRIES
                && rand_bounded@.len() == PER_KIND_COST_ENTRIES,
            r matches Some(m) ==> m.wf() && m.binary == binary && m.unary == unary && m.select
                == select && m.trivial == trivial && m.rand == rand && m.rand_bounded
                == rand_bounded,
    {
        if binary.len() == BINARY_COST_ENTRIES && unary.len() == UNARY_COST_ENTRIES
            && select.len() == PER_KIND_COST_ENTRIES && trivial.len() == PER_KIND_COST_ENTRIES
            && rand.len() == PER_KIND_COST_ENTRIES && rand_bounded.len()
            == PER_KIND_COST_ENTRIES {
            Some(CostModel { binary, unary, select, trivial, rand, rand_bounded })
        } else {
            None
        }
    }
}

/// What `estimate` returns, as a pure function of the cost model, the
/// operation and the operand shapes.
pub open spec fn spec_estimate(
    m: CostModel,
    op: SupportedFheOperations,
    shapes: Seq<OperandShape>,
) -> Result<u64, Fault> {
    if shapes.len() != arity(op) {
        Err(Fault::ArityMismatch)
    } else if is_binary_op(op) {
        match (shapes[0], shapes[1]) {
            (OperandShape::Ciphertext(k1), OperandShape::Ciphertext(k2)) => {
                if k1 == k2 && binary_ct_ct_legal(op, k1) {
                    Ok(m.binary@[binary_entry(op, k1, false)])
                } else {
                    Err(Fault::UnsupportedShape)
                }
            },
            (OperandShape::Ciphertext(k), OperandShape::Scalar(_)) => {
                if binary_ct_scalar_legal(op, k) {
                    Ok(m.binary@[binary_entry(op, k, true)])
                } else {
                    Err(Fault::UnsupportedShape)
                }
            },
            _ => Err(Fault::UnsupportedShape),
        }
    } else {
        match op {
            SupportedFheOperations::FheNeg | SupportedFheOperations::FheNot => {
                match shapes[0] {
                    OperandShape::Ciphertext(k) => {
                        if unary_legal(op, k) {
                            Ok(m.unary@[unary_entry(op, k)])
                        } else {
                            Err(Fault::UnsupportedShape)
                        }
                    },
                    OperandShape::Scalar(_) => Err(Fault::UnsupportedShape),
                }
            },
            SupportedFheOperations::FheIfThenElse => {
                if shapes[0] != OperandShape::Ciphertext(CiphertextKind::Bool) {
                    Ok(0)
                } else {
                    match (shapes[1], shapes[2]) {
                        (OperandShape::Ciphertext(k1), OperandShape::Ciphertext(k2)) => {
                            if k1 == k2 {
                                Ok(m.select@[kind_index(k1)])
                            } else {
                                Err(Fault::UnsupportedShape)
                            }
                        },
                        _ => Err(Fault::UnsupportedShape),
                    }
                }
            },
            SupportedFheOperations::FheCast | SupportedFheOperations::FheTrivialEncrypt => {
                match shapes[1] {
                    OperandShape::Scalar(b) => {
                        if tag_of(b) < 12 {
                            Ok(m.trivial@[tag_of(b) as int])
                        } else {
                            Err(Fault::UnknownTypeTag)
                        }
                    },
                    _ => Err(Fault::UnsupportedShape),
                }
            },
            SupportedFheOperations::FheRand => {
                match shapes[1] {
                    OperandShape::Scalar(b) => {
                        if tag_of(b) < 12 {
                            Ok(m.rand@[tag_of(b) as int])
                        } else {
                            Err(Fault::UnknownTypeTag)
                        }
                    },
                    _ => Ok(0),
                }
            },
            SupportedFheOperations::FheRandBounded => {
                match shapes[2] {
                    OperandShape::Scalar(b) => {
                        if tag_of(b) < 12 {
                            Ok(m.rand_bounded@[tag_of(b) as int])
                        } else {
                            Err(Fault::UnknownTypeTag)
                        }
                    },
                    _ => Ok(0),
                }
            },
            _ => Err(Fault::UnknownOperation),
        }
    }
}

impl SupportedFheOperations {
    /// The operation a numeric operation code names; see
    /// `spec_op_from_code` for the code table.
    pub fn from_code(code: i16) -> (r: Option<SupportedFheOperations>)
        ensures
            r == spec_op_from_code(code),
    {
        match code {
            0 => Some(SupportedFheOperations::FheAdd),
            1 => Some(SupportedFheOperations::FheSub),
            2 => Some(SupportedFheOperations::FheMul),
            3 => Some(SupportedFheOperations::FheDiv),
            4 => Some(SupportedFheOperations::FheRem),
            5 => Some(SupportedFheOperations::FheBitAnd),
            6 => Some(SupportedFheOperations::FheBitOr),
            7 => Some(SupportedFheOperations::FheBitXor),
            8 => Some(SupportedFheOperations::FheShl),
            9 => Some(SupportedFheOperations::FheShr),
            10 => Some(SupportedFheOperations::FheRotl),
            11 => Some(SupportedFheOperations::FheRotr),
            12 => Some(SupportedFheOperations::FheEq),
            13 => Some(SupportedFheOperations::FheNe),
            14 => Some(SupportedFheOperations::FheGe),
            15 => Some(SupportedFheOperations::FheGt),
            16 => Some(SupportedFheOperations::FheLe),
            17 => Some(SupportedFheOperations::FheLt),
            18 => Some(SupportedFheOperations::FheMin),
            19 => Some(SupportedFheOperations::FheMax),
            20 => Some(SupportedFheOperations::FheNeg),
            21 => Some(SupportedFheOperations::FheNot),
            22 => Some(SupportedFheOperations::FheCast),
            23 => Some(SupportedFheOperations::FheTrivialEncrypt),
            24 => Some(SupportedFheOperations::FheIfThenElse),
            25 => Some(SupportedFheOperations::FheRand),
            26 => Some(SupportedFheOperations::FheRandBounded),
            _ => None,
        }
    }
}

/// The operation's fixed operand count.
fn arity_of(op: SupportedFheOperations) -> (n: usize)
    ensures
        n == arity(op),
{
    match op {
        SupportedFheOperations::FheNeg | SupportedFheOperations::FheNot => 1,
        SupportedFheOperations::FheIfThenElse | SupportedFheOperations::FheRandBounded => 3,
        _ => 2,
    }
}

/// Whether the operation takes two operands.
fn op_is_binary(op: SupportedFheOperations) -> (r: bool)
    ensures
        r == is_binary_op(op),
{
    match op {
        SupportedFheOperations::FheAdd
        | SupportedFheOperations::FheSub
        | SupportedFheOperations::FheMul
        | SupportedFheOperations::FheDiv
        | SupportedFheOperations::FheRem
        | SupportedFheOperations::FheBitAnd
        | SupportedFheOperations::FheBitOr
        | SupportedFheOperations::FheBitXor
        | SupportedFheOperations::FheShl
        | SupportedFheOperations::FheShr
        | SupportedFheOperations::FheRotl
        | SupportedFheOperations::FheRotr
        | SupportedFheOperations::FheEq
        | SupportedFheOperations::FheNe
        | SupportedFheOperations::FheGe
        | SupportedFheOperations::FheGt
        | SupportedFheOperations::FheLe
        | SupportedFheOperations::FheLt
        | SupportedFheOperations::FheMin
        | SupportedFheOperations::FheMax => true,
        _ => false,
    }
}

/// Whether the kind is a sized unsigned integer.
fn kind_is_uint(k: CiphertextKind) -> (r: bool)
    ensures
        r == is_uint_kind(k),
{
    match k {
        CiphertextKind::Uint4
        | CiphertextKind::Uint8
        | CiphertextKind::Uint16
        | CiphertextKind::Uint32
        | CiphertextKind::Uint64
        | CiphertextKind::Uint128
        | CiphertextKind::Uint160
        | CiphertextKind::Uint256 => true,
        _ => false,
    }
}

/// Whether the kind is a fixed-length encrypted byte string.
fn kind_is_bytes(k: CiphertextKind) -> (r: bool)
    ensures
        r == is_bytes_kind(k),
{
    match k {
        CiphertextKind::Bytes64 | CiphertextKind::Bytes128 | CiphertextKind::Bytes256 => true,
        _ => false,
    }
}

/// Legality of a ciphertext pair of kind `k` under the binary operation.
fn binary_ct_ct_ok(op: SupportedFheOperations, k: CiphertextKind) -> (r: bool)
    ensures
        r == binary_ct_ct_legal(op, k),
{
    match op {
        SupportedFheOperations::FheAdd
        | SupportedFheOperations::FheSub
        | SupportedFheOperations::FheMul
        | SupportedFheOperations::FheDiv
        | SupportedFheOperations::FheRem => kind_is_uint(k),
        SupportedFheOperations::FheBitAnd
        | SupportedFheOperations::FheBitOr
        | SupportedFheOperations::FheBitXor
        | SupportedFheOperations::FheEq
        | SupportedFheOperations::FheNe => true,
        SupportedFheOperations::FheShl
        | SupportedFheOperations::FheShr
        | SupportedFheOperations::FheRotl
        | SupportedFheOperations::FheRotr
        | SupportedFheOperations::FheGe
        | SupportedFheOperations::FheGt
        | SupportedFheOperations::FheLe
        | SupportedFheOperations::FheLt
        | SupportedFheOperations::FheMin
        | SupportedFheOperations::FheMax => kind_is_uint(k) || kind_is_bytes(k),
        _ => false,
    }
}

/// Legality of a ciphertext of kind `k` with a scalar right-hand side under
/// the binary operation.
fn binary_ct_scalar_ok(op: SupportedFheOperations, k: CiphertextKind) -> (r: bool)
    ensures
        r == binary_ct_scalar_legal(op, k),
{
    match op {
        SupportedFheOperations::FheAdd
        | SupportedFheOperations::FheSub
        | SupportedFheOperations::FheMul
        | SupportedFheOperations::FheDiv
        | SupportedFheOperations::FheRem
        | SupportedFheOperations::FheMin
        | SupportedFheOperations::FheMax => kind_is_uint(k),
        SupportedFheOperations::FheBitAnd
        | SupportedFheOperations::FheBitOr
        | SupportedFheOperations::FheBitXor
        | SupportedFheOperations::FheEq
        | SupportedFheOperations::FheNe => true,
        SupportedFheOperations::FheShl
        | SupportedFheOperations::FheShr
        | SupportedFheOperations::FheRotl
        | SupportedFheOperations::FheRotr => kind_is_uint(k) || kind_is_bytes(k),
        SupportedFheOperations::FheGe
        | SupportedFheOperations::FheGt
        | SupportedFheOperations::FheLe
        | SupportedFheOperations::FheLt => kind_is_uint(k) || k == CiphertextKind::Bool,
        _ => false,
    }
}

/// The dense index of the kind.
fn kind_index_of(k: CiphertextKind) -> (n: usize)
    ensures
        n == kind_index(k),
        n < 12,
{
    match k {
        CiphertextKind::Bool => 0,
        CiphertextKind::Uint4 => 1,
        CiphertextKind::Uint8 => 2,
        CiphertextKind::Uint16 => 3,
        CiphertextKind::Uint32 => 4,
        CiphertextKind::Uint64 => 5,
        CiphertextKind::Uint128 => 6,
        CiphertextKind::Uint160 => 7,
        CiphertextKind::Uint256 => 8,
        CiphertextKind::Bytes64 => 9,
        CiphertextKind::Bytes128 => 10,
        CiphertextKind::Bytes256 => 11,
    }
}

/// The dense index of a binary operation.
fn binary_index_of(op: SupportedFheOperations) -> (n: usize)
    ensures
        n == binary_index(op),
        n < 20,
{
    match op {
        SupportedFheOperations::FheAdd => 0,
        SupportedFheOperations::FheSub => 1,
        SupportedFheOperations::FheMul => 2,
        SupportedFheOperations::FheDiv => 3,
        SupportedFheOperations::FheRem => 4,
        SupportedFheOperations::FheBitAnd => 5,
        SupportedFheOperations::FheBitOr => 6,
        SupportedFheOperations::FheBitXor => 7,
        SupportedFheOperations::FheShl => 8,
        SupportedFheOperations::FheShr => 9,
        SupportedFheOperations::FheRotl => 10,
        SupportedFheOperations::FheRotr => 11,
        SupportedFheOperations::FheEq => 12,
        SupportedFheOperations::FheNe => 13,
        SupportedFheOperations::FheGe => 14,
        SupportedFheOperations::FheGt => 15,
        SupportedFheOperations::FheLe => 16,
        SupportedFheOperations::FheLt => 17,
        SupportedFheOperations::FheMin => 18,
        SupportedFheOperations::FheMax => 19,
        _ => 0,
    }
}

/// The additional bytes the operation will require on the device, for the
/// given operands, under the given leaf-cost model: exactly
/// `spec_estimate` of the operand shapes.  An operand count that does not
/// match the operation's fixed arity, an unsupported operand combination
/// and an unknown destination-type tag are each refused by kind.
pub fn estimate(
    model: &CostModel,
    op: SupportedFheOperations,
    operands: &Vec<SupportedFheCiphertexts>,
) -> (r: Result<u64, Fault>)
    requires
        model.wf(),
    ensures
        r == spec_estimate(*model, op, shapes_of(operands@)),
{
    let ghost shapes = shapes_of(operands@);
    let expected = arity_of(op);
    if operands.len() != expected {
        return Err(Fault::ArityMismatch);
    }
    if op_is_binary(op) {
        proof {
            assert(shapes[0] == shape_of(operands@[0]));
            assert(shapes[1] == shape_of(operands@[1]));
        }
        let ka = operands[0].kind();
        let kb = operands[1].kind();
        match (ka, kb) {
            (Some(k1), Some(k2)) => {
                if k1 == k2 && binary_ct_ct_ok(op, k1) {
                    let bi = binary_index_of(op);
                    let ki = kind_index_of(k1);
                    let idx: usize = (bi * 12 + ki) * 2;
                    Ok(model.binary[idx])
                } else {
                    Err(Fault::UnsupportedShape)
                }
            },
            (Some(k1), None) => {
                if binary_ct_scalar_ok(op, k1) {
                    let bi = binary_index_of(op);
                    let ki = kind_index_of(k1);
                    let idx: usize = (bi * 12 + ki) * 2 + 1;
                    Ok(model.binary[idx])
                } else {
                    Err(Fault::UnsupportedShape)
                }
            },
            (None, _) => Err(Fault::UnsupportedShape),
        }
    } else {
        match op {
            SupportedFheOperations::FheNeg | SupportedFheOperations::FheNot => {
                proof {
                    assert(shapes[0] == shape_of(operands@[0]));
                }
                match operands[0].kind() {
                    Some(k) => {
                        let legal = match op {
                            SupportedFheOperations::FheNot => true,
                            _ => kind_is_uint(k),
                        };
                        if legal {
                            let base: usize = match op {
                                SupportedFheOperations::FheNot => 0,
                                _ => 12,
                            };
                            let idx: usize = base + kind_index_of(k);
                            Ok(model.unary[idx])
                        } else {
                            Err(Fault::UnsupportedShape)
                        }
                    },
                    None => Err(Fault::UnsupportedShape),
                }
            },
            SupportedFheOperations::FheIfThenElse => {
                proof {
                    assert(shapes[0] == shape_of(operands@[0]));
                    assert(shapes[1] == shape_of(operands@[1]));
                    assert(shapes[2] == shape_of(operands@[2]));
                }
                let selector_is_bool = match operands[0].kind() {
                    Some(CiphertextKind::Bool) => true,
                    _ => false,
                };
                if !selector_is_bool {
                    return Ok(0);
                }
                match (operands[1].kind(), operands[2].kind()) {
                    (Some(k1), Some(k2)) => {
                        if k1 == k2 {
                            Ok(model.select[kind_index_of(k1)])
                        } else {
                            Err(Fault::UnsupportedShape)
                        }
                    },
                    _ => Err(Fault::UnsupportedShape),
                }
            },
            SupportedFheOperations::FheCast | SupportedFheOperations::FheTrivialEncrypt => {
                proof {
                    assert(shapes[1] == shape_of(operands@[1]));
                }
                match &operands[1] {
                    SupportedFheCiphertexts::Scalar(b) => {
                        let t = crate::coerce::read_be_u16(b);
                        if t < 12 {
                            Ok(model.trivial[t as usize])
                        } else {
                            Err(Fault::UnknownTypeTag)
                        }
                    },
                    _ => Err(Fault::UnsupportedShape),
                }
            },
            SupportedFheOperations::FheRand => {
                proof {
                    assert(shapes[1] == shape_of(operands@[1]));
                }
                match &operands[1] {
                    SupportedFheCiphertexts::Scalar(b) => {
                        let t = crate::coerce::read_be_u16(b);
                        if t < 12 {
                            Ok(model.rand[t as usize])
                        } else {
                            Err(Fault::UnknownTypeTag)
                        }
                    },
                    _ => Ok(0),
                }
            },
            SupportedFheOperations::FheRandBounded => {
                proof {
                    assert(shapes[2] == shape_of(operands@[2]));
                }
                match &operands[2] {
                    SupportedFheCiphertexts::Scalar(b) => {
                        let t = crate::coerce::read_be_u16(b);
                        if t < 12 {
                            Ok(model.rand_bounded[t as usize])
                        } else {
                            Err(Fault::UnknownTypeTag)
                        }
                    },
                    _ => Ok(0),
                }
            },
            _ => Err(Fault::UnknownOperation),
        }
    }
}

/// What `get_op_size_on_gpu` returns: `spec_estimate` for the operation the
/// code names, or a refusal of the code itself.
pub open spec fn spec_op_size(m: CostModel, code: i16, shapes: Seq<OperandShape>) -> Result<
    u64,
    Fault,
> {
    match spec_op_from_code(code) {
        Some(op) => spec_estimate(m, op, shapes),
        None => Err(Fault::UnknownOperation),
    }
}

/// The additional bytes the operation named by `fhe_operation_int` will
/// require on the device for the given operands: `estimate` behind the
/// numeric operation code.
pub fn get_op_size_on_gpu(
    model: &CostModel,
    fhe_operation_int: i16,
    input_operands: &Vec<SupportedFheCiphertexts>,
) -> (r: Result<u64, Fault>)
    requires
        model.wf(),
    ensures
        r == spec_op_size(*model, fhe_operation_int, shapes_of(input_operands@)),
{
    match SupportedFheOperations::from_code(fhe_operation_int) {
        Some(op) => estimate(model, op, input_operands),
        None => Err(Fault::UnknownOperation),
    }
}

/// The size of one trivially-encrypted unit of the destination type the tag
/// names: the cost `FheCast` and `FheTrivialEncrypt` are charged, offered
/// directly for callers sizing a single ciphertext.
pub fn get_supported_ct_size_on_gpu(model: &CostModel, ct_type: i16) -> (r: Result<u64, Fault>)
    requires
        model.wf(),
    ensures
        0 <= ct_type < 12 ==> r == Ok::<u64, Fault>(model.trivial@[ct_type as int]),
        !(0 <= ct_type < 12) ==> r == Err::<u64, Fault>(Fault::UnknownTypeTag),
{
    if 0 <= ct_type && ct_type < 12 {
        Ok(model.trivial[ct_type as usize])
    } else {
        Err(Fault::UnknownTypeTag)
    }
}

/// Cost determinism: the estimate is a pure function of the operation and
/// the operand shapes — two operand lists with equal shapes get the same
/// answer, whatever else (logical values, residency, footprints, prior
/// calls) differs.
pub proof fn lemma_estimate_deterministic(
    m: CostModel,
    op: SupportedFheOperations,
    a: Seq<SupportedFheCiphertexts>,
    b: Seq<SupportedFheCiphertexts>,
)
    requires
        shapes_of(a) == shapes_of(b),
    ensures
        spec_estimate(m, op, shapes_of(a)) == spec_estimate(m, op, shapes_of(b)),
{
}

} // verus!
