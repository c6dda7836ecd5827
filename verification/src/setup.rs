//! The choices made while the graphics device is set up.

use vstd::prelude::*;

verus! {

/// Presentable images asked of the swapchain.
pub const SWAPCHAIN_IMAGES: u32 = 3;

/// Array layers of each swapchain image.
pub const SWAPCHAIN_LAYERS: u32 = 1;

/// Width of the swapchain's images where the surface names no size.
pub const DEFAULT_WIDTH: u32 = 1280;

/// Height of the swapchain's images where the surface names no size.
pub const DEFAULT_HEIGHT: u32 = 1024;

/// A size in pixels.
#[derive(Clone, Copy, Debug, PartialEq, Eq, Structural)]
pub struct Extent {
    pub width: u32,
    pub height: u32,
}

/// What the device reports of one of its queue families.
#[derive(Clone, Copy, Debug, PartialEq, Eq, Structural)]
pub struct QueueFamily {
    /// Whether its queues take draw commands.
    pub supports_graphics: bool,
    /// Whether the window's surface can be presented from it; `None` where
    /// the device could not say.
    pub presents: Option<bool>,
}

impl QueueFamily {
    /// Whether draw commands for the window can run on this family. A family
    /// of which the device could not say whether it presents is not used.
    pub open spec fn suitable(self) -> bool {
        self.supports_graphics && self.presents == Some(true)
    }

    pub fn is_suitable(&self) -> (yes: bool)
        ensures
            yes == self.suitable(),
    {
        self.supports_graphics && match self.presents {
            Some(presents) => presents,
            None => false,
        }
    }
}

/// Why the device cannot be set up.
#[derive(Clone, Copy, Debug, PartialEq, Eq, Structural)]
pub enum SetupError {
    /// No queue family both draws and presents to the window.
    NoQueueFamily,
    /// The surface offers no present mode.
    NoPresentMode,
    /// The surface offers no image format.
    NoFormat,
}

/// Picks the queue family that draw commands run on: the first suitable one
/// in the order the device lists them.
pub fn choose_queue_family(families: &Vec<QueueFamily>) -> (choice: Result<usize, SetupError>)
    ensures
        match choice {
            Ok(index) => {
                &&& index < families@.len()
                &&& families@[index as int].suitable()
                &&& forall|k: int| 0 <= k < index ==> !(#[trigger] families@[k]).suitable()
            },
            Err(error) => {
                &&& error == SetupError::NoQueueFamily
                &&& forall|k: int| 0 <= k < families@.len() ==> !(#[trigger] families@[k]).suitable()
            },
        },
{
    let n = families.len();
    let mut i: usize = 0;
    while i < n
        invariant
            n == families@.len(),
            i <= n,
            forall|k: int| 0 <= k < i ==> !(#[trigger] families@[k]).suitable(),
        decreases n - i,
    {
        if families[i].is_suitable() {
            return Ok(i);
        }
        i = i + 1;
    }
    Err(SetupError::NoQueueFamily)
}

/// What the window's surface can do, as far as the swapchain depends on it.
#[derive(Clone, Copy, Debug, PartialEq, Eq, Structural)]
pub struct Surface {
    /// The size of the surface, where the window system fixes it.
    pub current_extent: Option<Extent>,
    /// How many present modes it offers.
    pub present_modes: usize,
    /// How many image formats it offers.
    pub formats: usize,
}

/// The swapchain to create.
#[derive(Clone, Copy, Debug, PartialEq, Eq, Structural)]
pub struct Swapchain {
    pub images: u32,
    pub layers: u32,
    pub extent: Extent,
    /// Position of the present mode among those the surface offers.
    pub present_mode: usize,
    /// Position of the image format among those the surface offers.
    pub format: usize,
}

/// The swapchain for `surface`: three images of one layer, of the surface's
/// own size or of the default one, in the first present mode and the first
/// format that the surface offers.
pub open spec fn swapchain_for(surface: Surface) -> Result<Swapchain, SetupError> {
    if surface.present_modes == 0 {
        Err(SetupError::NoPresentMode)
    } else if surface.formats == 0 {
        Err(SetupError::NoFormat)
    } else {
        Ok(
            Swapchain {
                images: SWAPCHAIN_IMAGES,
                layers: SWAPCHAIN_LAYERS,
                extent: match surface.current_extent {
                    Some(extent) => extent,
                    None => Extent { width: DEFAULT_WIDTH, height: DEFAULT_HEIGHT },
                },
                present_mode: 0,
                format: 0,
            },
        )
    }
}

/// Plans the swapchain for a surface.
pub fn plan_swapchain(surface: &Surface) -> (plan: Result<Swapchain, SetupError>)
    ensures
        plan == swapchain_for(*surface),
{
    if surface.present_modes == 0 {
        return Err(SetupError::NoPresentMode);
    }
    if surface.formats == 0 {
        return Err(SetupError::NoFormat);
    }
    let extent = match surface.current_extent {
        Some(extent) => extent,
        None => Extent { width: DEFAULT_WIDTH, height: DEFAULT_HEIGHT },
    };
    Ok(
        Swapchain {
            images: SWAPCHAIN_IMAGES,
            layers: SWAPCHAIN_LAYERS,
            extent,
            present_mode: 0,
            format: 0,
        },
    )
}

} // verus!
