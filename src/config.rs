//! Run options of the inference engine: opaque numeric knobs, with the
//! defaults that stand in for values left out of the project file.

use vstd::prelude::*;

verus! {

pub const DEFAULT_CTX_SIZE: u32 = 1024;

pub const DEFAULT_N_BATCH: u32 = 512;

pub const DEFAULT_N_GPU_LAYERS: u32 = 100;

/// A knob's value, with zero read as "not given".
pub open spec fn or_default(value: u32, default: u32) -> u32 {
    if value == 0 {
        default
    } else {
        value
    }
}

#[derive(Clone, Copy, Debug, PartialEq, Eq, Structural, Default)]
pub struct RunOptions {
    pub ctx_size: u32,
    pub n_batch: u32,
    pub n_gpu_layers: u32,
}

impl RunOptions {
    /// Replaces every knob left at zero by its default.
    pub fn fill_default_value(&mut self)
        ensures
            final(self).ctx_size == or_default(old(self).ctx_size, DEFAULT_CTX_SIZE),
            final(self).n_batch == or_default(old(self).n_batch, DEFAULT_N_BATCH),
            final(self).n_gpu_layers == or_default(old(self).n_gpu_layers, DEFAULT_N_GPU_LAYERS),
    {
        if self.ctx_size == 0 {
            self.ctx_size = DEFAULT_CTX_SIZE;
        }
        if self.n_batch == 0 {
            self.n_batch = DEFAULT_N_BATCH;
        }
        if self.n_gpu_layers == 0 {
            self.n_gpu_layers = DEFAULT_N_GPU_LAYERS;
        }
    }
}

} // verus!
