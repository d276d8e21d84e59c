//! Tensor descriptors: element types, layouts, quantization kinds and the
//! other small value types that the native engine speaks in.
use vstd::prelude::*;

verus! {

/// `t` is what the native code `code` stands for: the type with that code,
/// or `TypeMax` for any code past the known ones.
pub open spec fn decodes_tensor_type(code: u32, t: RknnTensorType) -> bool {
    if code <= 12 {
        t.code() == code
    } else {
        t == RknnTensorType::TypeMax
    }
}

/// `f` is what the native code `code` stands for: the format with that code,
/// or `FormatMax` for any code past the known ones.
pub open spec fn decodes_tensor_format(code: u32, f: RknnTensorFormat) -> bool {
    if code <= 4 {
        f.code() == code
    } else {
        f == RknnTensorFormat::FormatMax
    }
}

/// `q` is what the native code `code` stands for: the scheme with that code,
/// or `QntMax` for any code past the known ones.
pub open spec fn decodes_qnt_type(code: u32, q: RknnTensorQntType) -> bool {
    if code <= 3 {
        q.code() == code
    } else {
        q == RknnTensorQntType::QntMax
    }
}

/// Element type of a tensor.
#[derive(Debug, Copy, Clone, PartialEq, Eq, Structural)]
pub enum RknnTensorType {
    /// 32-bit floating point.
    Float32,
    /// 16-bit floating point.
    Float16,
    /// 8-bit signed integer.
    Int8,
    /// 8-bit unsigned integer.
    Uint8,
    /// 16-bit signed integer.
    Int16,
    /// 16-bit unsigned integer.
    Uint16,
    /// 32-bit signed integer.
    Int32,
    /// 32-bit unsigned integer.
    Uint32,
    /// 64-bit signed integer.
    Int64,
    /// Boolean.
    Boolean,
    /// 4-bit integer.
    Int4,
    /// 16-bit brain floating point.
    BFloat16,
    /// Any code past the known ones.
    TypeMax,
}

impl RknnTensorType {
    /// The native integer code of this type.
    pub open spec fn code(self) -> u32 {
        match self {
            RknnTensorType::Float32 => 0,
            RknnTensorType::Float16 => 1,
            RknnTensorType::Int8 => 2,
            RknnTensorType::Uint8 => 3,
            RknnTensorType::Int16 => 4,
            RknnTensorType::Uint16 => 5,
            RknnTensorType::Int32 => 6,
            RknnTensorType::Uint32 => 7,
            RknnTensorType::Int64 => 8,
            RknnTensorType::Boolean => 9,
            RknnTensorType::Int4 => 10,
            RknnTensorType::BFloat16 => 11,
            RknnTensorType::TypeMax => 12,
        }
    }

    /// Maps a native code to its type; codes past the known ones map to
    /// `TypeMax`.
    pub fn from_int(input: u32) -> (r: Self)
        ensures
            decodes_tensor_type(input, r),
    {
        match input {
            0 => RknnTensorType::Float32,
            1 => RknnTensorType::Float16,
            2 => RknnTensorType::Int8,
            3 => RknnTensorType::Uint8,
            4 => RknnTensorType::Int16,
            5 => RknnTensorType::Uint16,
            6 => RknnTensorType::Int32,
            7 => RknnTensorType::Uint32,
            8 => RknnTensorType::Int64,
            9 => RknnTensorType::Boolean,
            10 => RknnTensorType::Int4,
            11 => RknnTensorType::BFloat16,
            _ => RknnTensorType::TypeMax,
        }
    }

    /// The native integer code of this type.
    pub fn to_int(self) -> (r: u32)
        ensures
            r == self.code(),
    {
        match self {
            RknnTensorType::Float32 => 0,
            RknnTensorType::Float16 => 1,
            RknnTensorType::Int8 => 2,
            RknnTensorType::Uint8 => 3,
            RknnTensorType::Int16 => 4,
            RknnTensorType::Uint16 => 5,
            RknnTensorType::Int32 => 6,
            RknnTensorType::Uint32 => 7,
            RknnTensorType::Int64 => 8,
            RknnTensorType::Boolean => 9,
            RknnTensorType::Int4 => 10,
            RknnTensorType::BFloat16 => 11,
            RknnTensorType::TypeMax => 12,
        }
    }
}

/// Memory layout of a tensor.
#[derive(Debug, Copy, Clone, PartialEq, Eq, Structural)]
pub enum RknnTensorFormat {
    /// Batch, channel, height, width.
    NCHW,
    /// Batch, height, width, channel.
    NHWC,
    /// Channel-blocked layout.
    NC1HWC2,
    /// No declared layout.
    Undefined,
    /// Any code past the known ones.
    FormatMax,
}

impl RknnTensorFormat {
    /// The native integer code of this format.
    pub open spec fn code(self) -> u32 {
        match self {
            RknnTensorFormat::NCHW => 0,
            RknnTensorFormat::NHWC => 1,
            RknnTensorFormat::NC1HWC2 => 2,
            RknnTensorFormat::Undefined => 3,
            RknnTensorFormat::FormatMax => 4,
        }
    }

    /// Maps a native code to its format; codes past the known ones map to
    /// `FormatMax`.
    pub fn from_int(input: u32) -> (r: Self)
        ensures
            decodes_tensor_format(input, r),
    {
        match input {
            0 => RknnTensorFormat::NCHW,
            1 => RknnTensorFormat::NHWC,
            2 => RknnTensorFormat::NC1HWC2,
            3 => RknnTensorFormat::Undefined,
            _ => RknnTensorFormat::FormatMax,
        }
    }

    /// The native integer code of this format.
    pub fn to_int(self) -> (r: u32)
        ensures
            r == self.code(),
    {
        match self {
            RknnTensorFormat::NCHW => 0,
            RknnTensorFormat::NHWC => 1,
            RknnTensorFormat::NC1HWC2 => 2,
            RknnTensorFormat::Undefined => 3,
            RknnTensorFormat::FormatMax => 4,
        }
    }
}

/// The display name of a format.
pub open spec fn format_name(fmt: RknnTensorFormat) -> Seq<char> {
    match fmt {
        RknnTensorFormat::NCHW => "NCHW"@,
        RknnTensorFormat::NHWC => "NHWC"@,
        RknnTensorFormat::NC1HWC2 => "NC1HWC2"@,
        RknnTensorFormat::Undefined => "Undefined"@,
        RknnTensorFormat::FormatMax => "FormatMax"@,
    }
}

/// The display name of a format.
pub fn get_format_string(fmt: RknnTensorFormat) -> (r: &'static str)
    ensures
        r@ == format_name(fmt),
{
    match fmt {
        RknnTensorFormat::NCHW => "NCHW",
        RknnTensorFormat::NHWC => "NHWC",
        RknnTensorFormat::NC1HWC2 => "NC1HWC2",
        RknnTensorFormat::Undefined => "Undefined",
        RknnTensorFormat::FormatMax => "FormatMax",
    }
}

/// Quantization scheme of a tensor.
#[derive(Debug, Copy, Clone, PartialEq, Eq, Structural)]
pub enum RknnTensorQntType {
    /// Not quantized.
    Unquantized,
    /// Dynamic fixed point.
    Dfp,
    /// Affine asymmetric (scale and zero point).
    AffineAsymmetric,
    /// Any code past the known ones.
    QntMax,
}

impl RknnTensorQntType {
    /// The native integer code of this scheme.
    pub open spec fn code(self) -> u32 {
        match self {
            RknnTensorQntType::Unquantized => 0,
            RknnTensorQntType::Dfp => 1,
            RknnTensorQntType::AffineAsymmetric => 2,
            RknnTensorQntType::QntMax => 3,
        }
    }

    /// Maps a native code to its scheme; codes past the known ones map to
    /// `QntMax`.
    pub fn from_int(input: u32) -> (r: Self)
        ensures
            decodes_qnt_type(input, r),
    {
        match input {
            0 => RknnTensorQntType::Unquantized,
            1 => RknnTensorQntType::Dfp,
            2 => RknnTensorQntType::AffineAsymmetric,
            _ => RknnTensorQntType::QntMax,
        }
    }
}

/// Decoding a type's own code gives the type back.
pub proof fn lemma_tensor_type_code_round_trip(t: RknnTensorType)
    ensures
        forall|r: RknnTensorType| decodes_tensor_type(t.code(), r) ==> r == t,
{
}

/// Decoding a format's own code gives the format back.
pub proof fn lemma_tensor_format_code_round_trip(f: RknnTensorFormat)
    ensures
        forall|r: RknnTensorFormat| decodes_tensor_format(f.code(), r) ==> r == f,
{
}

/// Decoding a scheme's own code gives the scheme back.
pub proof fn lemma_qnt_type_code_round_trip(q: RknnTensorQntType)
    ensures
        forall|r: RknnTensorQntType| decodes_qnt_type(q.code(), r) ==> r == q,
{
}

/// Set of NPU cores that a session may run on.
#[derive(Debug, Copy, Clone, PartialEq, Eq, Structural)]
pub enum RknnCoreMask {
    /// Let the engine choose.
    Auto,
    /// Core 0 only.
    Core0,
    /// Core 1 only.
    Core1,
    /// Core 2 only.
    Core2,
    /// Cores 0 and 1.
    Core0_1,
    /// Cores 0, 1 and 2.
    Core0_1_2,
    /// Every core.
    All,
    /// No declared mask.
    Undefined,
}

impl RknnCoreMask {
    /// The native bit mask of this selection.
    pub open spec fn code(self) -> u32 {
        match self {
            RknnCoreMask::Auto => 0,
            RknnCoreMask::Core0 => 1,
            RknnCoreMask::Core1 => 2,
            RknnCoreMask::Core2 => 4,
            RknnCoreMask::Core0_1 => 3,
            RknnCoreMask::Core0_1_2 => 7,
            RknnCoreMask::All => 0xffff,
            RknnCoreMask::Undefined => 0x1_0000,
        }
    }

    /// The native bit mask of this selection.
    pub fn to_int(self) -> (r: u32)
        ensures
            r == self.code(),
    {
        match self {
            RknnCoreMask::Auto => 0,
            RknnCoreMask::Core0 => 1,
            RknnCoreMask::Core1 => 2,
            RknnCoreMask::Core2 => 4,
            RknnCoreMask::Core0_1 => 3,
            RknnCoreMask::Core0_1_2 => 7,
            RknnCoreMask::All => 0xffff,
            RknnCoreMask::Undefined => 0x1_0000,
        }
    }
}

/// Allocation flags for managed memory blocks.
pub struct RknnMemAllocFlags;

impl RknnMemAllocFlags {
    /// The engine's default placement.
    pub const DEFAULT: u64 = 0;
    /// A cacheable allocation.
    pub const CACHEABLE: u64 = 1 << 0;
    /// A non-cacheable allocation.
    pub const NON_CACHEABLE: u64 = 1 << 1;
    /// Try on-chip SRAM first.
    pub const TRY_ALLOC_SRAM: u64 = 1 << 2;
}

/// Direction of a cache synchronization on a managed memory block.
#[derive(Debug, Copy, Clone, PartialEq, Eq, Structural)]
pub enum RknnMemSyncMode {
    /// Flush CPU writes so the device sees them.
    ToDevice,
    /// Invalidate so the CPU sees device writes.
    FromDevice,
    /// Both directions.
    Bidirectional,
}

impl RknnMemSyncMode {
    /// The native code of this direction.
    pub open spec fn code(self) -> u32 {
        match self {
            RknnMemSyncMode::ToDevice => 1,
            RknnMemSyncMode::FromDevice => 2,
            RknnMemSyncMode::Bidirectional => 3,
        }
    }

    /// The native code of this direction.
    pub fn to_int(self) -> (r: u32)
        ensures
            r == self.code(),
    {
        match self {
            RknnMemSyncMode::ToDevice => 1,
            RknnMemSyncMode::FromDevice => 2,
            RknnMemSyncMode::Bidirectional => 3,
        }
    }
}

/// An input tensor to bind before a run.
#[derive(Debug)]
pub struct RknnInput<T> {
    /// Input index.
    pub index: usize,
    /// Input data.
    pub buf: Vec<T>,
    /// Whether the data is handed to the engine without conversion.
    pub pass_through: bool,
    /// Element type of the data.
    pub type_: RknnTensorType,
    /// Layout of the data.
    pub fmt: RknnTensorFormat,
}

impl<T> Default for RknnInput<T> {
    fn default() -> (r: Self)
        ensures
            r.index == 0,
            r.buf@.len() == 0,
            !r.pass_through,
            r.type_ == RknnTensorType::Float32,
            r.fmt == RknnTensorFormat::Undefined,
    {
        RknnInput {
            index: 0,
            buf: Vec::new(),
            pass_through: false,
            type_: RknnTensorType::Float32,
            fmt: RknnTensorFormat::Undefined,
        }
    }
}

/// Versions reported by the engine.
#[derive(Debug, Clone)]
pub struct RknnSdkVersion {
    /// API version text.
    pub api_version: String,
    /// Driver version text.
    pub drv_version: String,
}

/// Number of input and output tensors of a model.
#[derive(Debug, Copy, Clone, PartialEq, Eq, Structural)]
pub struct RknnInputOutputNum {
    /// Number of inputs.
    pub n_input: u32,
    /// Number of outputs.
    pub n_output: u32,
}

} // verus!
