//! The tuning parameters as they are displayed. (The parameters themselves, and the pitch
//! calculation from them, are floating point and the application's.)

use vstd::prelude::*;

verus! {

/// The tuning parameters formatted for display.
pub struct FormattedTuningParams {
    pub root_freq: String,
    pub stretch: String,
    pub skew: String,
    pub mode_offset: String,
    pub steps: String,
    pub mos_large_step_count: String,
    pub mos_small_step_count: String,
}

impl FormattedTuningParams {
    /// Every field is empty, as the display is blanked.
    pub open spec fn spec_is_blank(&self) -> bool {
        &&& self.root_freq@ == Seq::<char>::empty()
        &&& self.stretch@ == Seq::<char>::empty()
        &&& self.skew@ == Seq::<char>::empty()
        &&& self.mode_offset@ == Seq::<char>::empty()
        &&& self.steps@ == Seq::<char>::empty()
        &&& self.mos_large_step_count@ == Seq::<char>::empty()
        &&& self.mos_small_step_count@ == Seq::<char>::empty()
    }
}

impl Default for FormattedTuningParams {
    /// The blank display.
    fn default() -> (p: Self)
        ensures
            p.spec_is_blank(),
    {
        FormattedTuningParams {
            root_freq: String::new(),
            stretch: String::new(),
            skew: String::new(),
            mode_offset: String::new(),
            steps: String::new(),
            mos_large_step_count: String::new(),
            mos_small_step_count: String::new(),
        }
    }
}

} // verus!
