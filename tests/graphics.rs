use dx_window::diagnostics::Manager;
use dx_window::errors::{
    CallLocation, DeviceRemovedError, FatalErrorBase, GraphicsError, GraphicsErrorKind, HResultError,
};
use dx_window::graphics::{
    present_outcome, Graphics, PresentOutcome, Resources, DXGI_ERROR_DEVICE_REMOVED, S_OK,
    SYNC_INTERVAL,
};

fn here(line: u32) -> CallLocation {
    CallLocation { file: "src/render.rs".to_string(), line, column: 9 }
}

#[test]
fn result_codes_match_platform() {
    assert_eq!(DXGI_ERROR_DEVICE_REMOVED, windows::Win32::Graphics::Dxgi::DXGI_ERROR_DEVICE_REMOVED.0);
    assert_eq!(S_OK, windows::Win32::Foundation::S_OK.0);
    assert_eq!(SYNC_INTERVAL, 1);
}

#[test]
fn device_removed_present_exits_with_reason() {
    let g: Graphics<u8> = {
        let mut g = Graphics::setup(800, 600, None);
        g.bind_to_window(Ok(1)).unwrap();
        g
    };
    assert_eq!(g.end_frame(DXGI_ERROR_DEVICE_REMOVED), PresentOutcome::DeviceRemoved);
    let reason = 0x887A0006u32 as i32;
    let err = DeviceRemovedError { reason, origin: here(40) };
    assert_ne!(err.exit_code(), 0);
    assert_eq!(err.exit_code(), reason);
    assert_eq!(err.report(), "Error in src/render.rs:40\nDXGI_ERROR_DEVICE_REMOVED");
    let unknown = DeviceRemovedError { reason: 0, origin: here(41) };
    assert_eq!(unknown.exit_code(), 1);
}

#[test]
fn present_results_are_classified() {
    assert_eq!(present_outcome(0), PresentOutcome::Presented);
    assert_eq!(present_outcome(DXGI_ERROR_DEVICE_REMOVED), PresentOutcome::DeviceRemoved);
    assert_eq!(present_outcome(-2147024809), PresentOutcome::Failed(-2147024809));
    assert_eq!(present_outcome(0x087A0001), PresentOutcome::Failed(0x087A0001));
}

#[test]
fn failed_build_installs_nothing() {
    let mut g: Graphics<u32> = Graphics::setup(800, 600, Some(Manager::new()));
    assert!(!g.is_bound());
    let err = GraphicsError {
        kind: GraphicsErrorKind::ResourceCreation,
        details: "swap chain".to_string(),
        code: Some(-2147024809),
        origin: here(12),
    };
    let r = g.bind_to_window(Err(err));
    assert!(r.is_err());
    assert!(!g.is_bound());
    assert!(g.bind_to_window(Ok(7)).is_ok());
    assert_eq!(g.resources, Some(7));
    let again = GraphicsError {
        kind: GraphicsErrorKind::ResourceCreation,
        details: "depth view".to_string(),
        code: None,
        origin: here(13),
    };
    assert!(g.bind_to_window(Err(again)).is_err());
    assert_eq!(g.resources, Some(7));
    assert!(g.bind_to_window(Ok(9)).is_ok());
    assert_eq!(g.resources, Some(9));
}

#[test]
fn resources_need_every_part() {
    let all = Resources::assemble(Some(1u8), Some(2u16), Some(3u32), Some(4u64)).unwrap();
    assert_eq!((all.swap_chain, all.context, all.target, all.depth_stencil_view), (1, 2, 3, 4));
    assert!(Resources::assemble(Some(1u8), Some(2u16), None::<u32>, Some(4u64)).is_none());
    assert!(Resources::assemble(None::<u8>, Some(2u16), Some(3u32), Some(4u64)).is_none());
    assert!(Resources::assemble(Some(1u8), Some(2u16), Some(3u32), None::<u64>).is_none());
}

#[test]
fn buffer_extent_follows_window() {
    let g: Graphics<u8> = Graphics::setup(1000, 750, None);
    assert_eq!(g.buffer_extent(), (1000, 750));
    let odd: Graphics<u8> = Graphics::setup(-3, 0, None);
    assert_eq!(odd.buffer_extent(), (0, 0));
}

#[test]
fn graphics_error_exit_codes_follow_underlying_code() {
    let with_code = GraphicsError {
        kind: GraphicsErrorKind::DeviceCreation,
        details: "no adapter".to_string(),
        code: Some(-2005270524),
        origin: here(3),
    };
    assert_eq!(with_code.exit_code(), -2005270524);
    assert_eq!(with_code.report(), "Error in src/render.rs:3\nno adapter");
    let without = GraphicsError { code: None, ..with_code.clone() };
    assert_eq!(without.exit_code(), 1);
    let zero = GraphicsError { code: Some(0), ..with_code };
    assert_eq!(zero.exit_code(), 0);
    let zero_hr = HResultError::new(0, here(9), "fallback", None);
    assert_eq!(zero_hr.exit_code(), 0);
    let hr = HResultError::new(-5, here(8), "Presenting scene to swapchain failed", None);
    assert_eq!(hr.exit_code(), -5);
    assert_eq!(
        hr.report(),
        "Error in src/render.rs:8\nCode: -5: Unable to find error description. Fallback: Presenting scene to swapchain failed"
    );
}
