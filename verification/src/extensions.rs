//! Instance-extension sets: which of the known instance extensions a
//! driver offers or a host requests, as one flag per extension.

use vstd::prelude::*;

use crate::exports::str_eq;
use crate::vulkan::LoaderError;

verus! {

/// Anything that can say whether it carries a named extension.
pub trait HasExtensions {
    /// Whether the named extension is present.
    fn has_extension(&self, extension: &str) -> bool;
}

/// The known instance extensions, one flag each.
#[derive(Clone, Copy, Debug, PartialEq, Eq, Structural)]
pub struct InstanceExtensions {
    pub khr_surface: bool,
    pub khr_display: bool,
    pub khr_xlib_surface: bool,
    pub khr_xcb_surface: bool,
    pub khr_wayland_surface: bool,
    pub khr_android_surface: bool,
    pub khr_win32_surface: bool,
    pub ext_debug_utils: bool,
    pub mvk_ios_surface: bool,
    pub mvk_macos_surface: bool,
    pub mvk_moltenvk: bool,
    pub nn_vi_surface: bool,
    pub ext_swapchain_colorspace: bool,
    pub khr_get_physical_device_properties2: bool,
    pub khr_get_surface_capabilities2: bool,
}

/// The empty extension set.
pub open spec fn spec_none() -> InstanceExtensions {
    InstanceExtensions {
        khr_surface: false,
        khr_display: false,
        khr_xlib_surface: false,
        khr_xcb_surface: false,
        khr_wayland_surface: false,
        khr_android_surface: false,
        khr_win32_surface: false,
        ext_debug_utils: false,
        mvk_ios_surface: false,
        mvk_macos_surface: false,
        mvk_moltenvk: false,
        nn_vi_surface: false,
        ext_swapchain_colorspace: false,
        khr_get_physical_device_properties2: false,
        khr_get_surface_capabilities2: false,
    }
}

/// Extensions present in both sets.
pub open spec fn spec_intersection(a: InstanceExtensions, b: InstanceExtensions)
    -> InstanceExtensions {
    InstanceExtensions {
        khr_surface: a.khr_surface && b.khr_surface,
        khr_display: a.khr_display && b.khr_display,
        khr_xlib_surface: a.khr_xlib_surface && b.khr_xlib_surface,
        khr_xcb_surface: a.khr_xcb_surface && b.khr_xcb_surface,
        khr_wayland_surface: a.khr_wayland_surface && b.khr_wayland_surface,
        khr_android_surface: a.khr_android_surface && b.khr_android_surface,
        khr_win32_surface: a.khr_win32_surface && b.khr_win32_surface,
        ext_debug_utils: a.ext_debug_utils && b.ext_debug_utils,
        mvk_ios_surface: a.mvk_ios_surface && b.mvk_ios_surface,
        mvk_macos_surface: a.mvk_macos_surface && b.mvk_macos_surface,
        mvk_moltenvk: a.mvk_moltenvk && b.mvk_moltenvk,
        nn_vi_surface: a.nn_vi_surface && b.nn_vi_surface,
        ext_swapchain_colorspace: a.ext_swapchain_colorspace && b.ext_swapchain_colorspace,
        khr_get_physical_device_properties2: a.khr_get_physical_device_properties2
            && b.khr_get_physical_device_properties2,
        khr_get_surface_capabilities2: a.khr_get_surface_capabilities2
            && b.khr_get_surface_capabilities2,
    }
}

/// The flag a native extension name selects; unknown names select nothing.
pub open spec fn spec_has_extension(e: InstanceExtensions, name: Seq<char>) -> bool {
    if name == "VK_KHR_surface"@ {
        e.khr_surface
    } else if name == "VK_KHR_display"@ {
        e.khr_display
    } else if name == "VK_KHR_xlib_surface"@ {
        e.khr_xlib_surface
    } else if name == "VK_KHR_xcb_surface"@ {
        e.khr_xcb_surface
    } else if name == "VK_KHR_wayland_surface"@ {
        e.khr_wayland_surface
    } else if name == "VK_KHR_android_surface"@ {
        e.khr_android_surface
    } else if name == "VK_KHR_win32_surface"@ {
        e.khr_win32_surface
    } else if name == "VK_EXT_debug_utils"@ {
        e.ext_debug_utils
    } else if name == "VK_MVK_ios_surface"@ {
        e.mvk_ios_surface
    } else if name == "VK_MVK_macos_surface"@ {
        e.mvk_macos_surface
    } else if name == "VK_MVK_moltenvk"@ {
        e.mvk_moltenvk
    } else if name == "VK_NN_vi_surface"@ {
        e.nn_vi_surface
    } else if name == "VK_EXT_swapchain_colorspace"@ {
        e.ext_swapchain_colorspace
    } else if name == "VK_KHR_get_physical_device_properties2"@ {
        e.khr_get_physical_device_properties2
    } else if name == "VK_KHR_get_surface_capabilities2"@ {
        e.khr_get_surface_capabilities2
    } else {
        false
    }
}

impl InstanceExtensions {
    /// No extensions at all.
    pub fn none() -> (r: InstanceExtensions)
        ensures
            r == spec_none(),
    {
        InstanceExtensions {
            khr_surface: false,
            khr_display: false,
            khr_xlib_surface: false,
            khr_xcb_surface: false,
            khr_wayland_surface: false,
            khr_android_surface: false,
            khr_win32_surface: false,
            ext_debug_utils: false,
            mvk_ios_surface: false,
            mvk_macos_surface: false,
            mvk_moltenvk: false,
            nn_vi_surface: false,
            ext_swapchain_colorspace: false,
            khr_get_physical_device_properties2: false,
            khr_get_surface_capabilities2: false,
        }
    }

    /// The extensions present in both sets.
    pub fn intersection(&self, other: &InstanceExtensions) -> (r: InstanceExtensions)
        ensures
            r == spec_intersection(*self, *other),
    {
        InstanceExtensions {
            khr_surface: self.khr_surface && other.khr_surface,
            khr_display: self.khr_display && other.khr_display,
            khr_xlib_surface: self.khr_xlib_surface && other.khr_xlib_surface,
            khr_xcb_surface: self.khr_xcb_surface && other.khr_xcb_surface,
            khr_wayland_surface: self.khr_wayland_surface && other.khr_wayland_surface,
            khr_android_surface: self.khr_android_surface && other.khr_android_surface,
            khr_win32_surface: self.khr_win32_surface && other.khr_win32_surface,
            ext_debug_utils: self.ext_debug_utils && other.ext_debug_utils,
            mvk_ios_surface: self.mvk_ios_surface && other.mvk_ios_surface,
            mvk_macos_surface: self.mvk_macos_surface && other.mvk_macos_surface,
            mvk_moltenvk: self.mvk_moltenvk && other.mvk_moltenvk,
            nn_vi_surface: self.nn_vi_surface && other.nn_vi_surface,
            ext_swapchain_colorspace: self.ext_swapchain_colorspace
                && other.ext_swapchain_colorspace,
            khr_get_physical_device_properties2: self.khr_get_physical_device_properties2
                && other.khr_get_physical_device_properties2,
            khr_get_surface_capabilities2: self.khr_get_surface_capabilities2
                && other.khr_get_surface_capabilities2,
        }
    }
}

impl HasExtensions for InstanceExtensions {
    fn has_extension(&self, extension: &str) -> (r: bool)
        ensures
            r == spec_has_extension(*self, extension@),
    {
        if str_eq(extension, "VK_KHR_surface") {
            self.khr_surface
        } else if str_eq(extension, "VK_KHR_display") {
            self.khr_display
        } else if str_eq(extension, "VK_KHR_xlib_surface") {
            self.khr_xlib_surface
        } else if str_eq(extension, "VK_KHR_xcb_surface") {
            self.khr_xcb_surface
        } else if str_eq(extension, "VK_KHR_wayland_surface") {
            self.khr_wayland_surface
        } else if str_eq(extension, "VK_KHR_android_surface") {
            self.khr_android_surface
        } else if str_eq(extension, "VK_KHR_win32_surface") {
            self.khr_win32_surface
        } else if str_eq(extension, "VK_EXT_debug_utils") {
            self.ext_debug_utils
        } else if str_eq(extension, "VK_MVK_ios_surface") {
            self.mvk_ios_surface
        } else if str_eq(extension, "VK_MVK_macos_surface") {
            self.mvk_macos_surface
        } else if str_eq(extension, "VK_MVK_moltenvk") {
            self.mvk_moltenvk
        } else if str_eq(extension, "VK_NN_vi_surface") {
            self.nn_vi_surface
        } else if str_eq(extension, "VK_EXT_swapchain_colorspace") {
            self.ext_swapchain_colorspace
        } else if str_eq(extension, "VK_KHR_get_physical_device_properties2") {
            self.khr_get_physical_device_properties2
        } else if str_eq(extension, "VK_KHR_get_surface_capabilities2") {
            self.khr_get_surface_capabilities2
        } else {
            false
        }
    }
}

/// The instance extensions a host window layer requires.  Nothing is
/// requested yet, and an empty request intersected with whatever the
/// driver supports stays empty, so no driver query is needed.
pub fn required_extensions() -> (r: InstanceExtensions)
    ensures
        r == spec_none(),
{
    let requested = InstanceExtensions::none();
    let supported = InstanceExtensions::none();
    supported.intersection(&requested)
}

/// Failure to learn which extensions the driver supports.
#[derive(Clone, Debug)]
pub enum SupportedExtensionsError {
    LoadingError(LoaderError),
}

impl From<LoaderError> for SupportedExtensionsError {
    fn from(err: LoaderError) -> (r: SupportedExtensionsError) {
        SupportedExtensionsError::LoadingError(err)
    }
}

impl vstd::std_specs::convert::FromSpecImpl<LoaderError> for SupportedExtensionsError {
    open spec fn obeys_from_spec() -> bool {
        true
    }

    open spec fn from_spec(t: LoaderError) -> SupportedExtensionsError {
        SupportedExtensionsError::LoadingError(t)
    }
}

} // verus!
