//! What the viewer asks of its window surface: a size, a swap interval, and
//! one framebuffer configuration out of those the platform offers.

use vstd::prelude::*;

verus! {

/// How presentation is tied to the display's refresh.
#[derive(Clone, Copy, Debug, PartialEq, Eq, Structural)]
pub enum SwapInterval {
    /// Present at once.
    DontWait,
    /// Present on the `n`-th refresh; `n` is at least one.
    Wait(u32),
}

/// The swap interval that stands for a vertical-sync setting.
pub open spec fn interval_for(vsync_enabled: bool) -> SwapInterval {
    if vsync_enabled {
        SwapInterval::Wait(1)
    } else {
        SwapInterval::DontWait
    }
}

/// The size and swap interval last asked of the window surface.
#[derive(Clone, Copy, Debug)]
pub struct GlutinWindowContext {
    width: u32,
    height: u32,
    swap_interval: SwapInterval,
}

impl GlutinWindowContext {
    #[verifier::type_invariant]
    spec fn surface_is_not_empty(self) -> bool {
        self.width != 0 && self.height != 0
    }

    /// Width of the surface, in physical pixels.
    pub closed spec fn width(self) -> u32 {
        self.width
    }

    /// Height of the surface, in physical pixels.
    pub closed spec fn height(self) -> u32 {
        self.height
    }

    /// The swap interval in force.
    pub closed spec fn swap_interval(self) -> SwapInterval {
        self.swap_interval
    }

    /// The context of a surface that was made `width` by `height` pixels
    /// large and presents without waiting, or nothing if either is zero: a
    /// surface has no empty side.
    pub fn new(width: u32, height: u32) -> (context: Option<Self>)
        ensures
            context is Some <==> width != 0 && height != 0,
            context matches Some(c) ==> {
                &&& c.width() == width
                &&& c.height() == height
                &&& c.swap_interval() == SwapInterval::DontWait
            },
    {
        if width != 0 && height != 0 {
            Some(GlutinWindowContext { width, height, swap_interval: SwapInterval::DontWait })
        } else {
            None
        }
    }

    /// Turns vertical sync on or off. The result is the swap interval to
    /// set on the surface: every refresh with vertical sync, none without.
    pub fn set_vsync_enabled(&mut self, vsync_enabled: bool) -> (interval: SwapInterval)
        ensures
            interval == interval_for(vsync_enabled),
            final(self).swap_interval() == interval,
            final(self).width() == old(self).width(),
            final(self).height() == old(self).height(),
    {
        proof {
            use_type_invariant(&*self);
        }
        let interval = if vsync_enabled {
            SwapInterval::Wait(1)
        } else {
            SwapInterval::DontWait
        };
        self.swap_interval = interval;
        interval
    }

    /// Records that the surface is now `width` by `height` pixels large.
    pub fn resize(&mut self, width: u32, height: u32)
        requires
            width != 0,
            height != 0,
        ensures
            final(self).width() == width,
            final(self).height() == height,
            final(self).swap_interval() == old(self).swap_interval(),
    {
        proof {
            use_type_invariant(&*self);
        }
        self.width = width;
        self.height = height;
    }

    /// Size of the surface, width first; neither is zero.
    pub fn size(&self) -> (size: (u32, u32))
        ensures
            size.0 == self.width(),
            size.1 == self.height(),
            size.0 != 0,
            size.1 != 0,
    {
        proof {
            use_type_invariant(self);
        }
        (self.width, self.height)
    }

    /// The swap interval in force.
    pub fn current_swap_interval(&self) -> (interval: SwapInterval)
        ensures
            interval == self.swap_interval(),
    {
        self.swap_interval
    }
}

/// What the choice between framebuffer configurations looks at.
#[derive(Clone, Copy, Debug, PartialEq, Eq)]
pub struct ConfigInfo {
    /// Whether surfaces of this configuration can be transparent, where
    /// the platform can tell.
    pub supports_transparency: Option<bool>,
    /// Samples of the multisample buffer.
    pub num_samples: u8,
}

impl ConfigInfo {
    /// Whether the configuration is known to support transparency.
    pub open spec fn transparent(self) -> bool {
        self.supports_transparency == Some(true)
    }

    /// Whether this configuration takes the place of `held`: it does if it
    /// adds transparency or has more samples.
    pub open spec fn replaces(self, held: ConfigInfo) -> bool {
        (self.transparent() && !held.transparent()) || self.num_samples > held.num_samples
    }
}

/// The configuration held after the first `n` of `configs` were looked at
/// in turn, each taking the place of the one held when it replaces it.
pub open spec fn held_after(configs: Seq<ConfigInfo>, n: nat) -> nat
    recommends
        1 <= n <= configs.len(),
    decreases n,
{
    if n <= 1 {
        0
    } else {
        let held = held_after(configs, (n - 1) as nat);
        if configs[n - 1].replaces(configs[held as int]) {
            (n - 1) as nat
        } else {
            held
        }
    }
}

/// The index of the configuration to use: the one held after all were
/// looked at in the order given. No configuration after the chosen one
/// replaces it.
pub fn gl_config_picker(configs: &Vec<ConfigInfo>) -> (chosen: usize)
    requires
        configs.len() > 0,
    ensures
        chosen < configs.len(),
        chosen as nat == held_after(configs@, configs.len() as nat),
        forall|j: int| chosen < j < configs.len() ==> !(#[trigger] configs[j]).replaces(configs[chosen as int]),
{
    let mut held: usize = 0;
    let mut i: usize = 1;
    while i < configs.len()
        invariant
            1 <= i <= configs.len(),
            held < i,
            held as nat == held_after(configs@, i as nat),
            forall|j: int| held < j < i ==> !(#[trigger] configs[j]).replaces(configs[held as int]),
        decreases configs.len() - i,
    {
        let candidate = &configs[i];
        let current = &configs[held];
        let adds_transparency = is_transparent(candidate) && !is_transparent(current);
        if adds_transparency || candidate.num_samples > current.num_samples {
            held = i;
        }
        i = i + 1;
    }
    held
}

fn is_transparent(config: &ConfigInfo) -> (known: bool)
    ensures
        known == config.transparent(),
{
    match config.supports_transparency {
        Some(supported) => supported,
        None => false,
    }
}

} // verus!
