use rknn_rs::cast::{view_as, view_as_mut, write_prefix, write_slice};
use rknn_rs::memory::{ByteRegion, MemInfo, RknnTensorMemory};
use rknn_rs::tensor::RknnMemSyncMode;

fn info(virt_addr: usize, size: u32) -> MemInfo {
    MemInfo { virt_addr, phys_addr: 0x8000, fd: 7, offset: 0, size, flags: 1 }
}

#[test]
fn allocation_without_block_fails() {
    let e = RknnTensorMemory::adopt(3, None, "rknn_create_mem2").unwrap_err();
    assert_eq!(e.0, "rknn_create_mem2 failed.");
}

#[test]
fn live_block_accessors() {
    let m = RknnTensorMemory::adopt(3, Some(info(0x4000, 64)), "rknn_create_mem").unwrap();
    assert_eq!(m.context(), 3);
    assert!(m.is_live());
    assert_eq!(m.size().unwrap(), 64);
    assert_eq!(m.fd().unwrap(), 7);
    assert_eq!(m.byte_region().unwrap(), ByteRegion::Span { addr: 0x4000, len: 64 });
    assert_eq!(m.sync_request(RknnMemSyncMode::Bidirectional).unwrap(), 3);
}

#[test]
fn zero_length_block_views_empty_even_without_address() {
    let m = RknnTensorMemory::adopt(3, Some(info(0, 0)), "rknn_create_mem").unwrap();
    assert_eq!(m.byte_region().unwrap(), ByteRegion::Empty);
    let m = RknnTensorMemory::adopt(3, Some(info(0x4000, 0)), "rknn_create_mem").unwrap();
    assert_eq!(m.byte_region().unwrap(), ByteRegion::Empty);
}

#[test]
fn sized_block_without_address_fails() {
    let m = RknnTensorMemory::adopt(3, Some(info(0, 16)), "rknn_create_mem").unwrap();
    assert_eq!(m.byte_region().unwrap_err().0, "Tensor memory points to a null buffer.");
}

#[test]
fn released_block_refuses_everything() {
    let mut m = RknnTensorMemory::adopt(3, Some(info(0x4000, 64)), "rknn_create_mem").unwrap();
    assert_eq!(m.release(), Some(info(0x4000, 64)));
    assert!(!m.is_live());
    let released = "RknnTensorMemory has been released.";
    assert_eq!(m.size().unwrap_err().0, released);
    assert_eq!(m.fd().unwrap_err().0, released);
    assert_eq!(m.byte_region().unwrap_err().0, released);
    assert_eq!(m.sync_request(RknnMemSyncMode::ToDevice).unwrap_err().0, released);
    assert_eq!(m.release(), None);
}

#[test]
fn typed_view_of_whole_elements() {
    let words: Vec<u32> = vec![1, 2, 3];
    let bytes: &[u8] = bytemuck::cast_slice(&words);
    let v: &[u32] = view_as(bytes).unwrap();
    assert_eq!(v, &[1, 2, 3]);
    let halves: &[u16] = view_as(bytes).unwrap();
    assert_eq!(halves.len(), 6);
    let raw: &[u8] = view_as(bytes).unwrap();
    assert_eq!(raw.len(), 12);
}

#[test]
fn typed_view_with_slop_fails() {
    let words: Vec<u32> = vec![1, 2];
    let bytes: &[u8] = bytemuck::cast_slice(&words);
    let e = view_as::<u32>(&bytes[..6]).unwrap_err();
    assert_eq!(e.0, "Tensor memory cannot be viewed as elements of 4 bytes aligned to 4");
}

#[test]
fn misaligned_typed_view_fails() {
    let words: Vec<u32> = vec![1, 2, 3];
    let bytes: &[u8] = bytemuck::cast_slice(&words);
    assert!(view_as::<u32>(&bytes[1..9]).is_err());
}

#[test]
fn mutable_typed_view() {
    let mut words: Vec<u32> = vec![0, 0];
    {
        let bytes: &mut [u8] = bytemuck::cast_slice_mut(&mut words);
        let v: &mut [u32] = view_as_mut(bytes).unwrap();
        v[1] = 9;
    }
    assert_eq!(words, vec![0, 9]);
    let bytes: &mut [u8] = bytemuck::cast_slice_mut(&mut words);
    assert!(view_as_mut::<u64>(&mut bytes[..4]).is_err());
}

#[test]
fn write_fills_prefix_only() {
    let mut dst = [7i16, 7, 7, 7];
    write_prefix(&mut dst, &[1, 2]).unwrap();
    assert_eq!(dst, [1, 2, 7, 7]);
    write_prefix(&mut dst, &[5, 6, 7, 8]).unwrap();
    assert_eq!(dst, [5, 6, 7, 8]);
    write_prefix(&mut dst, &[]).unwrap();
    assert_eq!(dst, [5, 6, 7, 8]);
}

#[test]
fn oversized_write_copies_nothing() {
    let mut dst = [7u8, 7, 7];
    let e = write_prefix(&mut dst, &[1, 2, 3, 4]).unwrap_err();
    assert_eq!(e.0, "Input data is too large: 4 elements > 3 elements");
    assert_eq!(dst, [7, 7, 7]);
}

#[test]
fn write_through_byte_view() {
    let mut words: Vec<u32> = vec![0, 0, 0];
    {
        let bytes: &mut [u8] = bytemuck::cast_slice_mut(&mut words);
        write_slice(bytes, &[4u32, 5]).unwrap();
    }
    assert_eq!(words, vec![4, 5, 0]);
    {
        let bytes: &mut [u8] = bytemuck::cast_slice_mut(&mut words);
        let e = write_slice(bytes, &[1u32, 1, 1, 1]).unwrap_err();
        assert_eq!(e.0, "Input data is too large: 4 elements > 3 elements");
    }
    assert_eq!(words, vec![4, 5, 0]);
    let bytes: &mut [u8] = bytemuck::cast_slice_mut(&mut words);
    assert!(write_slice(&mut bytes[..10], &[1u32]).is_err());
}
