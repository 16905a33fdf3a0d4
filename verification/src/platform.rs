//! Entry points of system libraries that may or may not be there.
//!
//! The address of an entry point that a library lacks is 0. An entry point
//! that is missing disables the feature it serves; it is never an error.

use vstd::prelude::*;

verus! {

/// An address, or none for the null address.
pub open spec fn non_null(address: usize) -> Option<usize> {
    if address == 0 {
        None
    } else {
        Some(address)
    }
}

/// The address of an entry point, if it was found.
pub fn found(address: usize) -> (entry: Option<usize>)
    ensures
        entry == non_null(address),
{
    if address == 0 {
        None
    } else {
        Some(address)
    }
}

/// The entry points of the desktop window manager's library.
#[derive(Debug, Copy, Clone, PartialEq, Eq, Structural)]
pub struct DwmFunctions {
    /// Handle of the loaded library; never 0.
    pub dll_handle: usize,
    pub enable_blur_behind_window: Option<usize>,
    pub extend_frame_into_client_area: Option<usize>,
    pub def_window_proc: Option<usize>,
}

impl DwmFunctions {
    /// The entry points as they were looked up: none at all if the library
    /// could not be loaded, else each one that has an address.
    pub open spec fn looked_up(
        dll_handle: usize,
        enable_blur_behind_window: usize,
        extend_frame_into_client_area: usize,
        def_window_proc: usize,
    ) -> Option<DwmFunctions> {
        if dll_handle == 0 {
            None
        } else {
            Some(
                DwmFunctions {
                    dll_handle,
                    enable_blur_behind_window: non_null(enable_blur_behind_window),
                    extend_frame_into_client_area: non_null(extend_frame_into_client_area),
                    def_window_proc: non_null(def_window_proc),
                },
            )
        }
    }

    /// Takes the handle of the library and the addresses that looking up its
    /// three entry points gave.
    pub fn initialize(
        dll_handle: usize,
        enable_blur_behind_window: usize,
        extend_frame_into_client_area: usize,
        def_window_proc: usize,
    ) -> (functions: Option<DwmFunctions>)
        ensures
            functions == Self::looked_up(
                dll_handle,
                enable_blur_behind_window,
                extend_frame_into_client_area,
                def_window_proc,
            ),
    {
        if dll_handle == 0 {
            return None;
        }
        Some(
            DwmFunctions {
                dll_handle,
                enable_blur_behind_window: found(enable_blur_behind_window),
                extend_frame_into_client_area: found(extend_frame_into_client_area),
                def_window_proc: found(def_window_proc),
            },
        )
    }
}

/// The extensions of the window-system binding of the graphics library.
#[derive(Debug, Copy, Clone, PartialEq, Eq, Structural)]
pub struct ExtraWglFunctions {
    pub create_context_attribs_arb: Option<usize>,
    pub swap_interval_ext: Option<usize>,
    pub choose_pixel_format_arb: Option<usize>,
}

impl ExtraWglFunctions {
    /// No extension at all.
    pub open spec fn none() -> ExtraWglFunctions {
        ExtraWglFunctions {
            create_context_attribs_arb: None,
            swap_interval_ext: None,
            choose_pixel_format_arb: None,
        }
    }

    /// The extensions as they were looked up. The choice of a pixel format
    /// goes by the `ARB` entry point if there is one, else by the `EXT` one.
    pub open spec fn looked_up(
        choose_pixel_format_arb: usize,
        choose_pixel_format_ext: usize,
        create_context_attribs_arb: usize,
        swap_interval_ext: usize,
    ) -> ExtraWglFunctions {
        ExtraWglFunctions {
            create_context_attribs_arb: non_null(create_context_attribs_arb),
            swap_interval_ext: non_null(swap_interval_ext),
            choose_pixel_format_arb: if choose_pixel_format_arb != 0 {
                Some(choose_pixel_format_arb)
            } else {
                non_null(choose_pixel_format_ext)
            },
        }
    }

    /// No extension at all.
    pub fn empty() -> (functions: ExtraWglFunctions)
        ensures
            functions == Self::none(),
    {
        ExtraWglFunctions {
            create_context_attribs_arb: None,
            swap_interval_ext: None,
            choose_pixel_format_arb: None,
        }
    }

    /// Takes the addresses that looking up the four entry points gave.
    pub fn load(
        choose_pixel_format_arb: usize,
        choose_pixel_format_ext: usize,
        create_context_attribs_arb: usize,
        swap_interval_ext: usize,
    ) -> (functions: ExtraWglFunctions)
        ensures
            functions == Self::looked_up(
                choose_pixel_format_arb,
                choose_pixel_format_ext,
                create_context_attribs_arb,
                swap_interval_ext,
            ),
    {
        let choose = if choose_pixel_format_arb != 0 {
            Some(choose_pixel_format_arb)
        } else {
            found(choose_pixel_format_ext)
        };
        ExtraWglFunctions {
            create_context_attribs_arb: found(create_context_attribs_arb),
            swap_interval_ext: found(swap_interval_ext),
            choose_pixel_format_arb: choose,
        }
    }
}

/// The address of a function of the graphics library: the one that the
/// current context gives, and if it gives none, the one that the library
/// itself exports, if the library is loaded.
pub open spec fn resolved_address(from_context: usize, from_library: Option<usize>) -> usize {
    if from_context != 0 {
        from_context
    } else {
        match from_library {
            Some(address) => address,
            None => from_context,
        }
    }
}

/// Picks the address of a function of the graphics library.
pub fn resolve_address(from_context: usize, from_library: Option<usize>) -> (address: usize)
    ensures
        address == resolved_address(from_context, from_library),
        address == 0 <==> from_context == 0 && (from_library is None || from_library == Some(
            0usize,
        )),
{
    if from_context != 0 {
        from_context
    } else {
        match from_library {
            Some(address) => address,
            None => from_context,
        }
    }
}

} // verus!
