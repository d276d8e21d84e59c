use rknn_rs::error::check_status;
use rknn_rs::tensor::{
    get_format_string, RknnCoreMask, RknnInput, RknnInputOutputNum, RknnMemAllocFlags,
    RknnMemSyncMode, RknnTensorFormat, RknnTensorQntType, RknnTensorType,
};

#[test]
fn tensor_type_codes() {
    let expected = [
        RknnTensorType::Float32,
        RknnTensorType::Float16,
        RknnTensorType::Int8,
        RknnTensorType::Uint8,
        RknnTensorType::Int16,
        RknnTensorType::Uint16,
        RknnTensorType::Int32,
        RknnTensorType::Uint32,
        RknnTensorType::Int64,
        RknnTensorType::Boolean,
        RknnTensorType::Int4,
        RknnTensorType::BFloat16,
        RknnTensorType::TypeMax,
    ];
    for (code, t) in expected.iter().enumerate() {
        assert_eq!(RknnTensorType::from_int(code as u32), *t);
        assert_eq!(t.to_int(), code as u32);
    }
    assert_eq!(RknnTensorType::from_int(13), RknnTensorType::TypeMax);
    assert_eq!(RknnTensorType::from_int(u32::MAX), RknnTensorType::TypeMax);
}

#[test]
fn tensor_format_codes() {
    assert_eq!(RknnTensorFormat::from_int(0), RknnTensorFormat::NCHW);
    assert_eq!(RknnTensorFormat::from_int(1), RknnTensorFormat::NHWC);
    assert_eq!(RknnTensorFormat::from_int(2), RknnTensorFormat::NC1HWC2);
    assert_eq!(RknnTensorFormat::from_int(3), RknnTensorFormat::Undefined);
    assert_eq!(RknnTensorFormat::from_int(4), RknnTensorFormat::FormatMax);
    assert_eq!(RknnTensorFormat::from_int(77), RknnTensorFormat::FormatMax);
    assert_eq!(RknnTensorFormat::NC1HWC2.to_int(), 2);
}

#[test]
fn format_names() {
    assert_eq!(get_format_string(RknnTensorFormat::NCHW), "NCHW");
    assert_eq!(get_format_string(RknnTensorFormat::NHWC), "NHWC");
    assert_eq!(get_format_string(RknnTensorFormat::NC1HWC2), "NC1HWC2");
    assert_eq!(get_format_string(RknnTensorFormat::Undefined), "Undefined");
    assert_eq!(get_format_string(RknnTensorFormat::FormatMax), "FormatMax");
}

#[test]
fn quantization_codes() {
    assert_eq!(RknnTensorQntType::from_int(0), RknnTensorQntType::Unquantized);
    assert_eq!(RknnTensorQntType::from_int(1), RknnTensorQntType::Dfp);
    assert_eq!(RknnTensorQntType::from_int(2), RknnTensorQntType::AffineAsymmetric);
    assert_eq!(RknnTensorQntType::from_int(3), RknnTensorQntType::QntMax);
    assert_eq!(RknnTensorQntType::from_int(9), RknnTensorQntType::QntMax);
}

#[test]
fn core_masks_and_sync_modes() {
    assert_eq!(RknnCoreMask::Auto.to_int(), 0);
    assert_eq!(RknnCoreMask::Core2.to_int(), 4);
    assert_eq!(RknnCoreMask::Core0_1.to_int(), 3);
    assert_eq!(RknnCoreMask::Core0_1_2.to_int(), 7);
    assert_eq!(RknnCoreMask::All.to_int(), 0xffff);
    assert_eq!(RknnCoreMask::Undefined.to_int(), 0x1_0000);
    assert_eq!(RknnMemSyncMode::ToDevice.to_int(), 1);
    assert_eq!(RknnMemSyncMode::FromDevice.to_int(), 2);
    assert_eq!(RknnMemSyncMode::Bidirectional.to_int(), 3);
    assert_eq!(RknnMemAllocFlags::DEFAULT, 0);
    assert_eq!(RknnMemAllocFlags::CACHEABLE, 1);
    assert_eq!(RknnMemAllocFlags::NON_CACHEABLE, 2);
    assert_eq!(RknnMemAllocFlags::TRY_ALLOC_SRAM, 4);
}

#[test]
fn input_defaults() {
    let input: RknnInput<f32> = RknnInput::default();
    assert_eq!(input.index, 0);
    assert!(input.buf.is_empty());
    assert!(!input.pass_through);
    assert_eq!(input.type_, RknnTensorType::Float32);
    assert_eq!(input.fmt, RknnTensorFormat::Undefined);
    let n = RknnInputOutputNum { n_input: 1, n_output: 2 };
    assert_eq!(n.n_output, 2);
}

#[test]
fn status_codes() {
    assert!(check_status("rknn_run failed.", 0).is_ok());
    assert_eq!(check_status("rknn_run failed.", -3).unwrap_err().0, "rknn_run failed. exit code:-3");
    assert_eq!(
        check_status("rknn_mem_sync failed.", 2147483647).unwrap_err().message(),
        "rknn_mem_sync failed. exit code:2147483647"
    );
    assert_eq!(
        check_status("x", i32::MIN).unwrap_err().0,
        "x exit code:-2147483648"
    );
}
