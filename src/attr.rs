//! Tensor attributes: fixed-size native records turned into owned values.
use vstd::prelude::*;
use crate::tensor::{
    RknnInputOutputNum, RknnSdkVersion, RknnTensorFormat, RknnTensorQntType, RknnTensorType,
    decodes_qnt_type, decodes_tensor_format, decodes_tensor_type,
};

verus! {

/// The text that `String::from_utf8_lossy` makes of some bytes.
pub uninterp spec fn utf8_lossy(b: Seq<u8>) -> Seq<char>;

/// Every byte is ASCII.
pub open spec fn all_ascii(b: Seq<u8>) -> bool {
    forall|i: int| 0 <= i < b.len() ==> b[i] < 128
}

/// The characters of ASCII bytes, one for each byte.
pub open spec fn ascii_text(b: Seq<u8>, t: Seq<char>) -> bool {
    &&& t.len() == b.len()
    &&& forall|i: int| 0 <= i < b.len() ==> t[i] as u32 == b[i] as u32
}

/// Relies on String::from_utf8_lossy: the text depends on the bytes alone,
/// and valid UTF-8 (ASCII in particular) is decoded unchanged.
#[verifier::external_body]
fn decode_lossy(bytes: &[u8]) -> (r: String)
    ensures
        r@ == utf8_lossy(bytes@),
        all_ascii(bytes@) ==> ascii_text(bytes@, r@),
{
    String::from_utf8_lossy(bytes).into_owned()
}

/// Length of the C string at the start of `b`: the bytes before the first
/// zero, or all of them.
pub open spec fn c_str_len(b: Seq<u8>) -> nat
    decreases b.len(),
{
    if b.len() == 0 {
        0
    } else if b[0] == 0 {
        0
    } else {
        1 + c_str_len(b.drop_first())
    }
}

/// The C string at the start of `b`.
pub open spec fn c_str(b: Seq<u8>) -> Seq<u8> {
    b.take(c_str_len(b) as int)
}

/// The first zero of `b` is at `i`, or `b` has none and `i` is its length.
proof fn lemma_c_str_len(b: Seq<u8>, i: int)
    requires
        0 <= i <= b.len(),
        forall|j: int| 0 <= j < i ==> b[j] != 0,
        i == b.len() || b[i] == 0,
    ensures
        c_str_len(b) == i,
    decreases i,
{
    if i > 0 {
        let t = b.drop_first();
        assert forall|j: int| 0 <= j < i - 1 implies t[j] != 0 by {
            assert(t[j] == b[j + 1]);
        }
        if i < b.len() {
            assert(t[i - 1] == b[i]);
        }
        lemma_c_str_len(t, i - 1);
    }
}

/// Decodes a fixed-size, zero-terminated native character buffer: the bytes
/// before the first zero (or all of them), as lossy UTF-8.
pub fn c_char_array_to_string(chars: &[u8]) -> (r: String)
    ensures
        r@ == utf8_lossy(c_str(chars@)),
        all_ascii(c_str(chars@)) ==> ascii_text(c_str(chars@), r@),
{
    let mut prefix: Vec<u8> = Vec::new();
    let mut i: usize = 0;
    while i < chars.len() && chars[i] != 0
        invariant
            i <= chars@.len(),
            prefix@ == chars@.take(i as int),
            forall|j: int| 0 <= j < i ==> chars@[j] != 0,
        decreases chars@.len() - i,
    {
        prefix.push(chars[i]);
        i = i + 1;
        assert(prefix@ =~= chars@.take(i as int));
    }
    proof {
        lemma_c_str_len(chars@, i as int);
    }
    decode_lossy(prefix.as_slice())
}

/// A tensor attribute record as the native engine fills it.
#[derive(Debug, Copy, Clone)]
pub struct RawTensorAttr {
    /// Tensor index.
    pub index: u32,
    /// Number of dimensions the engine reports.
    pub n_dims: u32,
    /// Dimensions, padded to the record's capacity.
    pub dims: [u32; 16],
    /// Zero-terminated name.
    pub name: [u8; 256],
    /// Number of elements.
    pub n_elems: u32,
    /// Size in bytes.
    pub size: u32,
    /// Native layout code.
    pub fmt: u32,
    /// Native element type code.
    pub type_: u32,
    /// Native quantization scheme code.
    pub qnt_type: u32,
    /// Fractional length, for dynamic fixed point.
    pub fl: i8,
    /// Zero point, for affine quantization.
    pub zp: i32,
    /// IEEE-754 bits of the scale, for affine quantization.
    pub scale_bits: u32,
    /// Width stride.
    pub w_stride: u32,
    /// Size in bytes with strides.
    pub size_with_stride: u32,
    /// Nonzero when data passes through unconverted.
    pub pass_through: u8,
    /// Height stride.
    pub h_stride: u32,
}

/// An owned description of one tensor.
#[derive(Debug, Clone)]
pub struct RknnTensorAttr {
    pub index: u32,
    pub n_dims: u32,
    pub dims: Vec<u32>,
    pub name: String,
    pub n_elems: u32,
    pub size: u32,
    pub fmt: RknnTensorFormat,
    pub type_: RknnTensorType,
    pub qnt_type: RknnTensorQntType,
    pub fl: i8,
    pub zp: i32,
    /// IEEE-754 bits of the quantization scale.
    pub scale_bits: u32,
    pub w_stride: u32,
    pub size_with_stride: u32,
    pub pass_through: bool,
    pub h_stride: u32,
}

/// Number of dimensions to keep: the reported count, clamped to the
/// record's capacity.
pub open spec fn kept_dims(n_dims: u32) -> int {
    if n_dims < 16 {
        n_dims as int
    } else {
        16
    }
}

/// `a` is the owned form of the record `raw`.
pub open spec fn marshals(raw: RawTensorAttr, a: RknnTensorAttr) -> bool {
    &&& a.index == raw.index
    &&& a.n_dims == raw.n_dims
    &&& a.dims@ == raw.dims@.take(kept_dims(raw.n_dims))
    &&& a.name@ == utf8_lossy(c_str(raw.name@))
    &&& a.n_elems == raw.n_elems
    &&& a.size == raw.size
    &&& decodes_tensor_format(raw.fmt, a.fmt)
    &&& decodes_tensor_type(raw.type_, a.type_)
    &&& decodes_qnt_type(raw.qnt_type, a.qnt_type)
    &&& a.fl == raw.fl
    &&& a.zp == raw.zp
    &&& a.scale_bits == raw.scale_bits
    &&& a.w_stride == raw.w_stride
    &&& a.size_with_stride == raw.size_with_stride
    &&& a.pass_through == (raw.pass_through != 0)
    &&& a.h_stride == raw.h_stride
}

impl RknnTensorAttr {
    /// The owned form of a native record: dimensions cut to the reported
    /// count (never past the record's capacity), the name decoded up to its
    /// first zero, and codes mapped to their variants.
    pub fn from_raw(raw: &RawTensorAttr) -> (r: RknnTensorAttr)
        ensures
            marshals(*raw, r),
    {
        let n: usize = if raw.n_dims < 16 { raw.n_dims as usize } else { 16 };
        let mut dims: Vec<u32> = Vec::new();
        let mut i: usize = 0;
        while i < n
            invariant
                n == kept_dims(raw.n_dims),
                i <= n,
                dims@ == raw.dims@.take(i as int),
            decreases n - i,
        {
            dims.push(raw.dims[i]);
            i = i + 1;
            assert(dims@ =~= raw.dims@.take(i as int));
        }
        RknnTensorAttr {
            index: raw.index,
            n_dims: raw.n_dims,
            dims,
            name: c_char_array_to_string(raw.name.as_slice()),
            n_elems: raw.n_elems,
            size: raw.size,
            fmt: RknnTensorFormat::from_int(raw.fmt),
            type_: RknnTensorType::from_int(raw.type_),
            qnt_type: RknnTensorQntType::from_int(raw.qnt_type),
            fl: raw.fl,
            zp: raw.zp,
            scale_bits: raw.scale_bits,
            w_stride: raw.w_stride,
            size_with_stride: raw.size_with_stride,
            pass_through: raw.pass_through != 0,
            h_stride: raw.h_stride,
        }
    }
}

/// The owned dimensions never hold the record's padding: there are exactly
/// as many as reported, up to the capacity, and they are the leading ones.
pub proof fn lemma_dims_exclude_padding(raw: RawTensorAttr, a: RknnTensorAttr)
    requires
        marshals(raw, a),
    ensures
        a.dims@.len() == if raw.n_dims < 16 { raw.n_dims as nat } else { 16 },
        forall|i: int| 0 <= i < a.dims@.len() ==> a.dims@[i] == raw.dims@[i],
{
}

impl RknnSdkVersion {
    /// The versions decoded from the engine's two zero-terminated buffers.
    pub fn from_raw(api_version: &[u8], drv_version: &[u8]) -> (r: RknnSdkVersion)
        ensures
            r.api_version@ == utf8_lossy(c_str(api_version@)),
            r.drv_version@ == utf8_lossy(c_str(drv_version@)),
    {
        RknnSdkVersion {
            api_version: c_char_array_to_string(api_version),
            drv_version: c_char_array_to_string(drv_version),
        }
    }
}

/// Everything a model declares about its tensors.
#[derive(Debug, Clone)]
pub struct RknnModelInfo {
    /// Number of inputs and outputs.
    pub io_num: RknnInputOutputNum,
    /// One attribute per input.
    pub input_attrs: Vec<RknnTensorAttr>,
    /// One attribute per output.
    pub output_attrs: Vec<RknnTensorAttr>,
}

} // verus!
