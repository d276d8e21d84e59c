//! Checked reinterpretation of raw bytes as typed elements, and bounded
//! copies into typed views.
use vstd::prelude::*;
use vstd::layout::{align_of, size_of};
use bytemuck::{Pod, PodCastError};
use crate::error::{Error, decimal, push_decimal};

verus! {

#[verifier::external_type_specification]
#[verifier::external_body]
pub struct ExPodCastError(PodCastError);

/// What a successful cast of `n_bytes` bytes to elements of type `T` holds:
/// the same bytes, as whole elements.
pub open spec fn cast_len_ok<T>(n_bytes: nat, n_elems: nat) -> bool {
    n_elems * size_of::<T>() == n_bytes
}

/// Relies on bytemuck::try_cast_slice: it fails when the input is not
/// aligned for `T` or does not split into whole elements, and otherwise
/// views the same bytes as `len * size_of::<T>()` bytes of elements.
#[verifier::external_body]
fn try_cast_bytes<T: Pod>(bytes: &[u8]) -> (r: Result<&[T], PodCastError>)
    ensures
        r is Ok ==> cast_len_ok::<T>(bytes@.len(), r->Ok_0@.len()),
        size_of::<T>() > 0 && bytes@.len() % size_of::<T>() != 0 ==> r is Err,
        size_of::<T>() == 0 && bytes@.len() > 0 ==> r is Err,
        align_of::<T>() <= 1 && size_of::<T>() > 0 && bytes@.len() % size_of::<T>() == 0 ==> r is Ok,
{
    bytemuck::try_cast_slice(bytes)
}

/// Relies on bytemuck::try_cast_slice_mut, with the same outcome as
/// bytemuck::try_cast_slice. The view aliases all of `bytes`: the bytes are
/// left as they were when the view is, and on failure nothing is touched.
#[verifier::external_body]
fn try_cast_bytes_mut<T: Pod>(bytes: &mut [u8]) -> (r: Result<&mut [T], PodCastError>)
    ensures
        r is Ok ==> cast_len_ok::<T>(old(bytes)@.len(), r->Ok_0@.len()),
        r is Ok ==> ((*final(r->Ok_0))@ == (*r->Ok_0)@ ==> final(bytes)@ == old(bytes)@),
        r is Err ==> final(bytes)@ == old(bytes)@,
        size_of::<T>() > 0 && old(bytes)@.len() % size_of::<T>() != 0 ==> r is Err,
        size_of::<T>() == 0 && old(bytes)@.len() > 0 ==> r is Err,
        align_of::<T>() <= 1 && size_of::<T>() > 0 && old(bytes)@.len() % size_of::<T>() == 0 ==> r is Ok,
{
    bytemuck::try_cast_slice_mut(bytes)
}

/// Message for bytes that cannot be viewed as elements of the given size
/// and alignment.
pub open spec fn cast_msg(size: nat, align: nat) -> Seq<char> {
    "Tensor memory cannot be viewed as elements of "@ + decimal(size as int) + " bytes aligned to "@
        + decimal(align as int)
}

/// The failure of a cast to elements of type `T`.
fn cast_error<T>() -> (e: Error)
    ensures
        e.msg() == cast_msg(size_of::<T>(), align_of::<T>()),
{
    let size = core::mem::size_of::<T>();
    let align = core::mem::align_of::<T>();
    let mut s = String::from_str("Tensor memory cannot be viewed as elements of ");
    push_decimal(&mut s, size as i128);
    s.append(" bytes aligned to ");
    push_decimal(&mut s, align as i128);
    Error(s)
}

/// Views `bytes` as elements of `T`: fails, with a message that gives the
/// size and alignment of `T`,
/// when the bytes do not split into whole elements or are not aligned for
/// `T`.
pub fn view_as<T: Pod>(bytes: &[u8]) -> (r: Result<&[T], Error>)
    ensures
        r is Ok ==> cast_len_ok::<T>(bytes@.len(), r->Ok_0@.len()),
        r is Err ==> r->Err_0.msg() == cast_msg(size_of::<T>(), align_of::<T>()),
        size_of::<T>() > 0 && bytes@.len() % size_of::<T>() != 0 ==> r is Err,
        size_of::<T>() == 0 && bytes@.len() > 0 ==> r is Err,
        align_of::<T>() <= 1 && size_of::<T>() > 0 && bytes@.len() % size_of::<T>() == 0 ==> r is Ok,
{
    match try_cast_bytes::<T>(bytes) {
        Ok(v) => Ok(v),
        Err(_) => Err(cast_error::<T>()),
    }
}

/// Views `bytes` as mutable elements of `T`, on the same terms as
/// `view_as`.
pub fn view_as_mut<T: Pod>(bytes: &mut [u8]) -> (r: Result<&mut [T], Error>)
    ensures
        r is Ok ==> cast_len_ok::<T>(old(bytes)@.len(), r->Ok_0@.len()),
        r is Ok ==> ((*final(r->Ok_0))@ == (*r->Ok_0)@ ==> final(bytes)@ == old(bytes)@),
        r is Err ==> final(bytes)@ == old(bytes)@,
        r is Err ==> r->Err_0.msg() == cast_msg(size_of::<T>(), align_of::<T>()),
        size_of::<T>() > 0 && old(bytes)@.len() % size_of::<T>() != 0 ==> r is Err,
        size_of::<T>() == 0 && old(bytes)@.len() > 0 ==> r is Err,
        align_of::<T>() <= 1 && size_of::<T>() > 0 && old(bytes)@.len() % size_of::<T>() == 0 ==> r is Ok,
{
    match try_cast_bytes_mut::<T>(bytes) {
        Ok(v) => Ok(v),
        Err(_) => Err(cast_error::<T>()),
    }
}

/// Message for data longer than its destination.
pub open spec fn too_large_msg(data_len: nat, dst_len: nat) -> Seq<char> {
    "Input data is too large: "@ + decimal(data_len as int) + " elements > "@ + decimal(
        dst_len as int,
    ) + " elements"@
}

/// `dst` with its first `data.len()` elements replaced by `data`.
pub open spec fn overwrite_prefix<T>(dst: Seq<T>, data: Seq<T>) -> Seq<T> {
    data + dst.subrange(data.len() as int, dst.len() as int)
}

/// Copies `data` into the front of `dst`, leaving the rest of `dst` as it
/// was; refuses, and copies nothing, when `data` is longer than `dst`.
pub fn write_prefix<T: Copy>(dst: &mut [T], data: &[T]) -> (r: Result<(), Error>)
    ensures
        r is Ok <==> data@.len() <= old(dst)@.len(),
        r is Ok ==> final(dst)@ == overwrite_prefix(old(dst)@, data@),
        r is Err ==> final(dst)@ == old(dst)@,
        r is Err ==> r->Err_0.msg() == too_large_msg(data@.len(), old(dst)@.len()),
{
    if data.len() > dst.len() {
        let mut s = String::from_str("Input data is too large: ");
        push_decimal(&mut s, data.len() as i128);
        s.append(" elements > ");
        push_decimal(&mut s, dst.len() as i128);
        s.append(" elements");
        return Err(Error(s));
    }
    let n = data.len();
    let mut i: usize = 0;
    while i < n
        invariant
            n == data@.len(),
            n <= dst@.len(),
            i <= n,
            dst@.len() == old(dst)@.len(),
            forall|j: int| 0 <= j < i ==> dst@[j] == data@[j],
            forall|j: int| i <= j < dst@.len() ==> dst@[j] == old(dst)@[j],
        decreases n - i,
    {
        dst[i] = data[i];
        i = i + 1;
    }
    assert(dst@ =~= overwrite_prefix(old(dst)@, data@));
    Ok(())
}

/// Copies `data` into the front of `bytes` viewed as elements of `T`: fails
/// when the bytes cannot be viewed so, or when `data` holds more elements
/// than the view; copies nothing on failure.
pub fn write_slice<T: Pod>(bytes: &mut [u8], data: &[T]) -> (r: Result<(), Error>)
    ensures
        size_of::<T>() > 0 && old(bytes)@.len() % size_of::<T>() != 0 ==> r is Err,
        size_of::<T>() > 0 && data@.len() * size_of::<T>() > old(bytes)@.len() ==> r is Err,
        r is Err ==> final(bytes)@ == old(bytes)@,
        align_of::<T>() <= 1 && size_of::<T>() > 0 && old(bytes)@.len() % size_of::<T>() == 0
            && data@.len() * size_of::<T>() <= old(bytes)@.len() ==> r is Ok,
{
    let dst = view_as_mut::<T>(bytes)?;
    proof {
        let (d, n, k) = (data@.len() as int, dst@.len() as int, size_of::<T>() as int);
        if k > 0 && d * k > n * k {
            assert(d > n) by (nonlinear_arith)
                requires
                    k > 0,
                    d * k > n * k,
            ;
        }
        if k > 0 && d * k <= n * k {
            assert(d <= n) by (nonlinear_arith)
                requires
                    k > 0,
                    d * k <= n * k,
            ;
        }
    }
    write_prefix(dst, data)
}

} // verus!
