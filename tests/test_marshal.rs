use procspawn::{
    find_library_name_and_offset, find_shared_library_offset_by_name, function_address,
    function_address_here, in_ipc_mode, mark_procspawn_serde, rebase, relative_offset,
    serde_in_ipc_mode, with_ipc_mode, ImageSegment, IpcMode, Json, LibraryResolution,
    LoadedImage, MarshalError, MarshalledCall, Shmem,
};

fn images() -> Vec<LoadedImage> {
    vec![
        LoadedImage {
            name: "main".to_string(),
            segments: vec![ImageSegment { start: 0x1000, len: 0x1000 }],
        },
        LoadedImage {
            name: "libfoo.so".to_string(),
            segments: vec![
                ImageSegment { start: 0x8000, len: 0x100 },
                ImageSegment { start: 0x9000, len: 0x100 },
            ],
        },
    ]
}

fn endpoints() -> (ipc_channel::ipc::OpaqueIpcReceiver, ipc_channel::ipc::OpaqueIpcSender) {
    let (_args_tx, args_rx) = ipc_channel::ipc::channel::<u32>().unwrap();
    let (ret_tx, _ret_rx) = ipc_channel::ipc::channel::<u32>().unwrap();
    (args_rx.to_opaque(), ret_tx.to_opaque())
}

fn spawned_function(x: u32) -> u32 {
    x + 1
}

#[test]
fn offsets_round_trip() {
    assert_eq!(relative_offset(0x1500, 0x1000), Some(0x500));
    assert_eq!(relative_offset(0x1000, 0x1500), Some(-0x500));
    assert_eq!(rebase(0x500, 0x7000), Some(0x7500));
    assert_eq!(rebase(-0x500, 0x7000), Some(0x6b00));
    assert_eq!(rebase(-1, 0), None);
    assert_eq!(rebase(1, usize::MAX), None);
    assert_eq!(relative_offset(usize::MAX, 0), None);
}

#[test]
fn locates_function_image() {
    let images = images();
    assert_eq!(
        find_library_name_and_offset(&images, 0x9050),
        Some(("libfoo.so".to_string(), 0x8000))
    );
    assert_eq!(find_library_name_and_offset(&images, 0x1fff), Some(("main".to_string(), 0x1000)));
    assert_eq!(find_library_name_and_offset(&images, 0x2000), None);
    assert_eq!(find_shared_library_offset_by_name(&images, "libfoo.so"), Some(0x8000));
    assert_eq!(find_shared_library_offset_by_name(&images, "libbar.so"), None);
}

#[test]
fn marshal_and_resolve_across_relocation() {
    let images = images();
    let (rx, tx) = endpoints();
    let call = MarshalledCall::marshal(0, 0x9010, 0x1800, 0x1200, LibraryResolution::Runtime, &images, rx, tx)
        .unwrap();
    assert_eq!(call.lib_name, "libfoo.so");
    assert_eq!(call.fn_offset, 0x1010);
    assert_eq!(call.wrapper_offset, 0x600);
    let moved = vec![LoadedImage {
        name: "libfoo.so".to_string(),
        segments: vec![ImageSegment { start: 0x40000, len: 0x100 }],
    }];
    assert_eq!(
        function_address(&call.lib_name, call.fn_offset, 0x3200, LibraryResolution::Runtime, &moved),
        Ok(0x41010)
    );
    assert_eq!(call.wrapper_address(0x3200), Some(0x3800));
    assert_eq!(
        function_address("libbar.so", 0, 0, LibraryResolution::Runtime, &moved),
        Err(MarshalError::LibraryNotFound)
    );
}

#[test]
fn marshal_refusals() {
    let images = images();
    let (rx, tx) = endpoints();
    let err = MarshalledCall::marshal(8, 0x9010, 0x1800, 0x1200, LibraryResolution::Runtime, &images, rx, tx);
    assert_eq!(err.unwrap_err(), MarshalError::CapturingClosure);
    let (rx, tx) = endpoints();
    let err = MarshalledCall::marshal(0, 0x5000, 0x1800, 0x1200, LibraryResolution::Runtime, &images, rx, tx);
    assert_eq!(err.unwrap_err(), MarshalError::FunctionNotFound);
}

#[test]
fn marshal_main_image_only() {
    let (rx, tx) = endpoints();
    let call = MarshalledCall::marshal(0, 0x1500, 0x1800, 0x1200, LibraryResolution::MainImageOnly, &vec![], rx, tx)
        .unwrap();
    assert_eq!(call.lib_name, "");
    assert_eq!(call.fn_offset, 0x300);
    assert_eq!(
        function_address_here("", call.fn_offset, 0x5200, LibraryResolution::MainImageOnly),
        Ok(0x5500)
    );
}

#[test]
fn marshal_against_loaded_images() {
    let fn_addr = spawned_function as fn(u32) -> u32 as usize;
    let anchor = marshal_against_loaded_images as fn() as usize;
    let (rx, tx) = endpoints();
    let call = MarshalledCall::marshal_here(0, fn_addr, anchor, anchor, LibraryResolution::Runtime, rx, tx)
        .unwrap();
    assert_eq!(call.wrapper_offset, 0);
    assert_eq!(
        function_address_here(&call.lib_name, call.fn_offset, anchor, LibraryResolution::Runtime),
        Ok(fn_addr)
    );
}

#[test]
fn ipc_mode_is_scoped() {
    let mut mode = IpcMode::new();
    assert!(!in_ipc_mode(&mode));
    let seen = with_ipc_mode(&mut mode, |m| in_ipc_mode(m));
    assert!(seen);
    assert!(!mode.active);
    let seen = mark_procspawn_serde(&mut mode, |m| serde_in_ipc_mode(m));
    assert!(seen);
    assert!(!serde_in_ipc_mode(&mode));
}

#[test]
fn shmem_holds_bytes() {
    let shmem = Shmem::from_bytes(b"hello");
    assert_eq!(shmem.as_bytes(), b"hello");
    let empty = Shmem::from_bytes(&[]);
    assert!(empty.as_bytes().is_empty());
}

#[test]
fn json_wrapper_compares_inner() {
    assert_eq!(Json(3), Json(3));
    assert!(Json(1) < Json(2));
}

#[test]
fn marshal_here_main_image_only() {
    let (rx, tx) = endpoints();
    let call = MarshalledCall::marshal_here(0, 0x1500, 0x1800, 0x1200, LibraryResolution::MainImageOnly, rx, tx)
        .unwrap();
    assert_eq!(call.lib_name, "");
    assert_eq!(call.fn_offset, 0x300);
    assert_eq!(call.wrapper_offset, 0x600);
    let (rx, tx) = endpoints();
    let err = MarshalledCall::marshal_here(0, usize::MAX, 0x1800, 0, LibraryResolution::MainImageOnly, rx, tx);
    assert_eq!(err.unwrap_err(), MarshalError::OffsetOutOfRange);
}
