use vstd::prelude::*;

use findshlibs::{Segment, SharedLibrary};

use crate::config::LibraryResolution;

verus! {

/// One mapped segment of a loaded image: its start address in this process
/// and its length in bytes.
#[derive(Debug, Clone, Copy, PartialEq, Eq, Structural)]
pub struct ImageSegment {
    pub start: usize,
    pub len: usize,
}

/// An image loaded in this process, the main executable or a shared
/// library: its name and its segments.
#[derive(Debug)]
pub struct LoadedImage {
    pub name: String,
    pub segments: Vec<ImageSegment>,
}

/// True if the segment covers the address.
pub open spec fn segment_contains(s: ImageSegment, addr: int) -> bool {
    s.start <= addr < s.start + s.len
}

/// True if some segment of the image covers the address.
pub open spec fn image_contains(img: LoadedImage, addr: int) -> bool {
    exists|j: int| 0 <= j < img.segments@.len() && segment_contains(#[trigger] img.segments@[j], addr)
}

/// The base address of an image: the start of its first segment, or zero
/// where it has none.
pub open spec fn image_base(img: LoadedImage) -> usize {
    if img.segments@.len() > 0 {
        img.segments@[0].start
    } else {
        0
    }
}

/// `i` is the first image of `images` that covers the address.
pub open spec fn first_covering(images: Seq<LoadedImage>, addr: int, i: int) -> bool {
    &&& 0 <= i < images.len()
    &&& image_contains(images[i], addr)
    &&& forall|k: int| 0 <= k < i ==> !image_contains(#[trigger] images[k], addr)
}

/// `i` is the first image of `images` with the given name.
pub open spec fn first_named(images: Seq<LoadedImage>, name: Seq<char>, i: int) -> bool {
    &&& 0 <= i < images.len()
    &&& images[i].name@ == name
    &&& forall|k: int| 0 <= k < i ==> #[trigger] images[k].name@ != name
}

/// The difference `addr - anchor`, where it fits a signed machine word.
pub open spec fn relative_spec(addr: int, anchor: int) -> Option<int> {
    if isize::MIN < addr - anchor <= isize::MAX {
        Some(addr - anchor)
    } else {
        None
    }
}

/// Relies on findshlibs' TargetSharedLibrary::each, which lists the images
/// that the dynamic loader mapped into this process, with each segment's
/// address after relocation and its length.
#[verifier::external_body]
fn loaded_images() -> (r: Vec<LoadedImage>) {
    let mut images = Vec::new();
    findshlibs::TargetSharedLibrary::each(|lib| {
        let segments = lib.segments().map(|s| ImageSegment {
            start: s.actual_virtual_memory_address(lib).0,
            len: s.len(),
        }).collect();
        images.push(LoadedImage { name: lib.name().to_string_lossy().into_owned(), segments });
    });
    images
}

fn image_base_of(img: &LoadedImage) -> (r: usize)
    ensures
        r == image_base(*img),
{
    if img.segments.len() > 0 {
        img.segments[0].start
    } else {
        0
    }
}

fn image_covers(img: &LoadedImage, addr: usize) -> (r: bool)
    ensures
        r == image_contains(*img, addr as int),
{
    let mut j: usize = 0;
    while j < img.segments.len()
        invariant
            j <= img.segments@.len(),
            forall|k: int| 0 <= k < j ==> !segment_contains(#[trigger] img.segments@[k], addr as int),
        decreases img.segments@.len() - j,
    {
        let s = img.segments[j];
        if s.start <= addr && addr - s.start < s.len {
            return true;
        }
        j = j + 1;
    }
    false
}

/// The first image that covers the address: its name and its base.
pub fn find_library_name_and_offset(images: &Vec<LoadedImage>, addr: usize) -> (r: Option<
    (String, usize),
>)
    ensures
        match r {
            Some((name, base)) => exists|i: int|
                first_covering(images@, addr as int, i) && name@ == #[trigger] images@[i].name@
                    && base == image_base(images@[i]),
            None => forall|i: int|
                0 <= i < images@.len() ==> !image_contains(#[trigger] images@[i], addr as int),
        },
{
    let mut i: usize = 0;
    while i < images.len()
        invariant
            i <= images@.len(),
            forall|k: int| 0 <= k < i ==> !image_contains(#[trigger] images@[k], addr as int),
        decreases images@.len() - i,
    {
        if image_covers(&images[i], addr) {
            let name = images[i].name.clone();
            assert(first_covering(images@, addr as int, i as int));
            assert(name@ == images@[i as int].name@);
            return Some((name, image_base_of(&images[i])));
        }
        i = i + 1;
    }
    None
}

/// The base of the first image of the given name.
pub fn find_shared_library_offset_by_name(images: &Vec<LoadedImage>, name: &str) -> (r: Option<
    usize,
>)
    ensures
        match r {
            Some(base) => exists|i: int|
                first_named(images@, name@, i) && base == image_base(#[trigger] images@[i]),
            None => forall|i: int| 0 <= i < images@.len() ==> #[trigger] images@[i].name@ != name@,
        },
{
    let wanted = String::from_str(name);
    let mut i: usize = 0;
    while i < images.len()
        invariant
            i <= images@.len(),
            wanted@ == name@,
            forall|k: int| 0 <= k < i ==> #[trigger] images@[k].name@ != name@,
        decreases images@.len() - i,
    {
        if images[i].name == wanted {
            return Some(image_base_of(&images[i]));
        }
        i = i + 1;
    }
    None
}

/// The signed distance from `anchor` to `addr`, where it fits.
pub fn relative_offset(addr: usize, anchor: usize) -> (r: Option<isize>)
    ensures
        match r {
            Some(o) => relative_spec(addr as int, anchor as int) == Some(o as int),
            None => relative_spec(addr as int, anchor as int) is None,
        },
{
    if addr >= anchor {
        let d = addr - anchor;
        if d <= isize::MAX as usize {
            Some(d as isize)
        } else {
            None
        }
    } else {
        let d = anchor - addr;
        if d <= isize::MAX as usize {
            Some(-(d as isize))
        } else {
            None
        }
    }
}

/// The address at signed distance `offset` from `anchor`, where it fits.
pub fn rebase(offset: isize, anchor: usize) -> (r: Option<usize>)
    ensures
        0 <= anchor + offset <= usize::MAX ==> r == Some((anchor + offset) as usize),
        !(0 <= anchor + offset <= usize::MAX) ==> r is None,
{
    if offset >= 0 {
        let d = offset as usize;
        if anchor <= usize::MAX - d {
            Some(anchor + d)
        } else {
            None
        }
    } else {
        let m = (-(offset + 1)) as usize;
        if anchor > m {
            Some(anchor - m - 1)
        } else {
            None
        }
    }
}

/// An address recorded as its distance from an anchor in one process, and
/// rebased on the anchor's address in another process built from the same
/// image, lands on the same place relative to that anchor. In particular,
/// without relocation it lands on the address itself.
pub proof fn relocation_round_trip(addr: int, anchor: int, child_anchor: int)
    requires
        relative_spec(addr, anchor) is Some,
        0 <= child_anchor + (addr - anchor) <= usize::MAX,
    ensures
        relative_spec(addr, anchor) == Some(addr - anchor),
        child_anchor + relative_spec(addr, anchor)->Some_0 - child_anchor == addr - anchor,
        child_anchor == anchor ==> anchor + relative_spec(addr, anchor)->Some_0 == addr,
{
}

#[verifier::external_type_specification]
#[verifier::external_body]
pub struct ExOpaqueIpcReceiver(ipc_channel::ipc::OpaqueIpcReceiver);

#[verifier::external_type_specification]
#[verifier::external_body]
pub struct ExOpaqueIpcSender(ipc_channel::ipc::OpaqueIpcSender);

/// A call that crosses to another process: the image the function lives
/// in, the function's offset from that image's base, the offset of the typed
/// wrapper from the anchor, and the channels of the argument and the result.
#[derive(Debug)]
pub struct MarshalledCall {
    pub lib_name: String,
    pub fn_offset: isize,
    pub wrapper_offset: isize,
    pub args_receiver: ipc_channel::ipc::OpaqueIpcReceiver,
    pub return_sender: ipc_channel::ipc::OpaqueIpcSender,
}

/// Why a call could not be marshalled, or resolved in the child.
#[derive(Debug, Clone, Copy, PartialEq, Eq, Structural)]
pub enum MarshalError {
    /// The callable holds captured state, which cannot be rebuilt in the
    /// child.
    CapturingClosure,
    /// No loaded image covers the function.
    FunctionNotFound,
    /// The image of the call is not loaded in this process.
    LibraryNotFound,
    /// An address is too far from its reference point to be recorded.
    OffsetOutOfRange,
}

impl MarshalledCall {
    /// Marshals a call of the function at `fn_addr`, whose typed wrapper is
    /// at `wrapper_addr`, against the anchor at `anchor`. Only a callable of
    /// size zero can be marshalled. With run-time resolution the function's
    /// offset is taken from the base of the first image in `images` that
    /// covers it; without, the main image is assumed, the image name is
    /// empty, and the offset is taken from the anchor.
    pub fn marshal(
        callable_size: usize,
        fn_addr: usize,
        wrapper_addr: usize,
        anchor: usize,
        resolution: LibraryResolution,
        images: &Vec<LoadedImage>,
        args_receiver: ipc_channel::ipc::OpaqueIpcReceiver,
        return_sender: ipc_channel::ipc::OpaqueIpcSender,
    ) -> (r: Result<MarshalledCall, MarshalError>)
        ensures
            callable_size != 0 ==> r == Err::<MarshalledCall, MarshalError>(
                MarshalError::CapturingClosure,
            ),
            callable_size == 0 && resolution == LibraryResolution::MainImageOnly ==> match r {
                Ok(c) => c.lib_name@.len() == 0 && relative_spec(fn_addr as int, anchor as int)
                    == Some(c.fn_offset as int) && relative_spec(wrapper_addr as int, anchor as int)
                    == Some(c.wrapper_offset as int),
                Err(e) => e == MarshalError::OffsetOutOfRange && (relative_spec(
                    fn_addr as int,
                    anchor as int,
                ) is None || relative_spec(wrapper_addr as int, anchor as int) is None),
            },
            callable_size == 0 && resolution == LibraryResolution::Runtime ==> match r {
                Ok(c) => exists|i: int|
                    first_covering(images@, fn_addr as int, i) && c.lib_name@
                        == #[trigger] images@[i].name@ && relative_spec(
                        fn_addr as int,
                        image_base(images@[i]) as int,
                    ) == Some(c.fn_offset as int) && relative_spec(
                        wrapper_addr as int,
                        anchor as int,
                    ) == Some(c.wrapper_offset as int),
                Err(MarshalError::FunctionNotFound) => forall|i: int|
                    0 <= i < images@.len() ==> !image_contains(
                        #[trigger] images@[i],
                        fn_addr as int,
                    ),
                Err(MarshalError::OffsetOutOfRange) => exists|i: int|
                    first_covering(images@, fn_addr as int, i) && (relative_spec(
                        fn_addr as int,
                        image_base(#[trigger] images@[i]) as int,
                    ) is None || relative_spec(wrapper_addr as int, anchor as int) is None),
                Err(_) => false,
            },
    {
        if callable_size != 0 {
            return Err(MarshalError::CapturingClosure);
        }
        let (lib_name, base) = match resolution {
            LibraryResolution::MainImageOnly => (String::new(), anchor),
            LibraryResolution::Runtime => match find_library_name_and_offset(images, fn_addr) {
                Some(found) => found,
                None => {
                    return Err(MarshalError::FunctionNotFound);
                },
            },
        };
        let fn_offset = match relative_offset(fn_addr, base) {
            Some(o) => o,
            None => {
                return Err(MarshalError::OffsetOutOfRange);
            },
        };
        let wrapper_offset = match relative_offset(wrapper_addr, anchor) {
            Some(o) => o,
            None => {
                return Err(MarshalError::OffsetOutOfRange);
            },
        };
        Ok(MarshalledCall { lib_name, fn_offset, wrapper_offset, args_receiver, return_sender })
    }

    /// Marshals a call against the images loaded in this process, which are
    /// looked up only with run-time resolution.
    pub fn marshal_here(
        callable_size: usize,
        fn_addr: usize,
        wrapper_addr: usize,
        anchor: usize,
        resolution: LibraryResolution,
        args_receiver: ipc_channel::ipc::OpaqueIpcReceiver,
        return_sender: ipc_channel::ipc::OpaqueIpcSender,
    ) -> (r: Result<MarshalledCall, MarshalError>)
        ensures
            callable_size != 0 ==> r == Err::<MarshalledCall, MarshalError>(
                MarshalError::CapturingClosure,
            ),
            callable_size == 0 && resolution == LibraryResolution::MainImageOnly ==> match r {
                Ok(c) => c.lib_name@.len() == 0 && relative_spec(fn_addr as int, anchor as int)
                    == Some(c.fn_offset as int) && relative_spec(wrapper_addr as int, anchor as int)
                    == Some(c.wrapper_offset as int),
                Err(e) => e == MarshalError::OffsetOutOfRange && (relative_spec(
                    fn_addr as int,
                    anchor as int,
                ) is None || relative_spec(wrapper_addr as int, anchor as int) is None),
            },
            callable_size == 0 && resolution == LibraryResolution::Runtime ==> (r matches Err(e)
                ==> e == MarshalError::FunctionNotFound || e == MarshalError::OffsetOutOfRange),
            r matches Ok(c) ==> relative_spec(wrapper_addr as int, anchor as int) == Some(
                c.wrapper_offset as int,
            ),
    {
        let images = if callable_size == 0 && resolution == LibraryResolution::Runtime {
            loaded_images()
        } else {
            Vec::new()
        };
        MarshalledCall::marshal(
            callable_size,
            fn_addr,
            wrapper_addr,
            anchor,
            resolution,
            &images,
            args_receiver,
            return_sender,
        )
    }

    /// The address of the typed wrapper in this process, from the address
    /// of the anchor here.
    pub fn wrapper_address(&self, anchor: usize) -> (r: Option<usize>)
        ensures
            0 <= anchor + self.wrapper_offset <= usize::MAX ==> r == Some(
                (anchor + self.wrapper_offset) as usize,
            ),
            !(0 <= anchor + self.wrapper_offset <= usize::MAX) ==> r is None,
    {
        rebase(self.wrapper_offset, anchor)
    }
}

/// The address of the function of a call in this process: its offset from
/// the base of the image of that name among `images`, or from the anchor
/// where only the main image is used.
pub fn function_address(
    lib_name: &str,
    fn_offset: isize,
    anchor: usize,
    resolution: LibraryResolution,
    images: &Vec<LoadedImage>,
) -> (r: Result<usize, MarshalError>)
    ensures
        resolution == LibraryResolution::MainImageOnly ==> match r {
            Ok(a) => a == anchor + fn_offset,
            Err(e) => e == MarshalError::OffsetOutOfRange && !(0 <= anchor + fn_offset
                <= usize::MAX),
        },
        resolution == LibraryResolution::Runtime ==> match r {
            Ok(a) => exists|i: int|
                first_named(images@, lib_name@, i) && a == image_base(#[trigger] images@[i])
                    + fn_offset,
            Err(MarshalError::LibraryNotFound) => forall|i: int|
                0 <= i < images@.len() ==> #[trigger] images@[i].name@ != lib_name@,
            Err(MarshalError::OffsetOutOfRange) => exists|i: int|
                first_named(images@, lib_name@, i) && !(0 <= image_base(#[trigger] images@[i])
                    + fn_offset <= usize::MAX),
            Err(_) => false,
        },
{
    let base = match resolution {
        LibraryResolution::MainImageOnly => anchor,
        LibraryResolution::Runtime => match find_shared_library_offset_by_name(images, lib_name) {
            Some(b) => b,
            None => {
                return Err(MarshalError::LibraryNotFound);
            },
        },
    };
    match rebase(fn_offset, base) {
        Some(a) => Ok(a),
        None => Err(MarshalError::OffsetOutOfRange),
    }
}

/// The address of the function of a call, against the images loaded in
/// this process, which are looked up only with run-time resolution.
pub fn function_address_here(
    lib_name: &str,
    fn_offset: isize,
    anchor: usize,
    resolution: LibraryResolution,
) -> (r: Result<usize, MarshalError>)
    ensures
        resolution == LibraryResolution::MainImageOnly ==> match r {
            Ok(a) => a == anchor + fn_offset,
            Err(e) => e == MarshalError::OffsetOutOfRange && !(0 <= anchor + fn_offset
                <= usize::MAX),
        },
        resolution == LibraryResolution::Runtime ==> (r matches Err(e) ==> e
            == MarshalError::LibraryNotFound || e == MarshalError::OffsetOutOfRange),
{
    let images = match resolution {
        LibraryResolution::Runtime => loaded_images(),
        LibraryResolution::MainImageOnly => Vec::new(),
    };
    function_address(lib_name, fn_offset, anchor, resolution, &images)
}

} // verus!
