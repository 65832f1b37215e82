use vstd::prelude::*;

verus! {

/// The buffer roles of the frame, in ordinal order.
///
/// Ordinal 0 is the primary output; any ordinal outside `0..=8` resolves to it.
#[derive(Debug, Clone, Copy, PartialEq, Eq, Structural)]
pub enum WgpuView {
    Output,
    Albedo,
    Normal,
    GBuffer,
    Radiance,
    ScreenSpace,
    Ssao,
    FilteredSsao,
    MatParams,
}

/// The role that an ordinal names; unknown ordinals fail closed to `Output`.
pub open spec fn view_of_ordinal(i: int) -> WgpuView {
    if i == 1 {
        WgpuView::Albedo
    } else if i == 2 {
        WgpuView::Normal
    } else if i == 3 {
        WgpuView::GBuffer
    } else if i == 4 {
        WgpuView::Radiance
    } else if i == 5 {
        WgpuView::ScreenSpace
    } else if i == 6 {
        WgpuView::Ssao
    } else if i == 7 {
        WgpuView::FilteredSsao
    } else if i == 8 {
        WgpuView::MatParams
    } else {
        WgpuView::Output
    }
}

impl WgpuView {
    /// Number of buffer roles.
    pub const COUNT: usize = 9;

    /// The ordinal of a role.
    pub open spec fn ordinal(self) -> nat {
        match self {
            WgpuView::Output => 0,
            WgpuView::Albedo => 1,
            WgpuView::Normal => 2,
            WgpuView::GBuffer => 3,
            WgpuView::Radiance => 4,
            WgpuView::ScreenSpace => 5,
            WgpuView::Ssao => 6,
            WgpuView::FilteredSsao => 7,
            WgpuView::MatParams => 8,
        }
    }

    /// The ordinal of a role, as an index.
    pub fn index(self) -> (r: usize)
        ensures
            r == self.ordinal(),
            r < Self::COUNT,
    {
        match self {
            WgpuView::Output => 0,
            WgpuView::Albedo => 1,
            WgpuView::Normal => 2,
            WgpuView::GBuffer => 3,
            WgpuView::Radiance => 4,
            WgpuView::ScreenSpace => 5,
            WgpuView::Ssao => 6,
            WgpuView::FilteredSsao => 7,
            WgpuView::MatParams => 8,
        }
    }

    /// The role that a signed ordinal names, `Output` when out of range.
    pub fn from_ordinal(index: isize) -> (r: WgpuView)
        ensures
            r == view_of_ordinal(index as int),
    {
        match index {
            1 => WgpuView::Albedo,
            2 => WgpuView::Normal,
            3 => WgpuView::GBuffer,
            4 => WgpuView::Radiance,
            5 => WgpuView::ScreenSpace,
            6 => WgpuView::Ssao,
            7 => WgpuView::FilteredSsao,
            8 => WgpuView::MatParams,
            _ => WgpuView::Output,
        }
    }

    /// The role that an index names, `Output` when out of range.
    pub fn from_index(index: usize) -> (r: WgpuView)
        ensures
            r == view_of_ordinal(index as int),
    {
        match index {
            1 => WgpuView::Albedo,
            2 => WgpuView::Normal,
            3 => WgpuView::GBuffer,
            4 => WgpuView::Radiance,
            5 => WgpuView::ScreenSpace,
            6 => WgpuView::Ssao,
            7 => WgpuView::FilteredSsao,
            8 => WgpuView::MatParams,
            _ => WgpuView::Output,
        }
    }
}

impl From<isize> for WgpuView {
    fn from(index: isize) -> (r: WgpuView) {
        WgpuView::from_ordinal(index)
    }
}

impl vstd::std_specs::convert::FromSpecImpl<isize> for WgpuView {
    open spec fn obeys_from_spec() -> bool {
        true
    }

    open spec fn from_spec(index: isize) -> WgpuView {
        view_of_ordinal(index as int)
    }
}

impl From<usize> for WgpuView {
    fn from(index: usize) -> (r: WgpuView) {
        WgpuView::from_index(index)
    }
}

impl vstd::std_specs::convert::FromSpecImpl<usize> for WgpuView {
    open spec fn obeys_from_spec() -> bool {
        true
    }

    open spec fn from_spec(index: usize) -> WgpuView {
        view_of_ordinal(index as int)
    }
}

/// Every role is named by its own ordinal.
pub proof fn lemma_ordinal_round_trip(v: WgpuView)
    ensures
        view_of_ordinal(v.ordinal() as int) == v,
        v.ordinal() < WgpuView::COUNT,
{
}

/// Ordinals below zero or above eight resolve to the primary output.
pub proof fn lemma_out_of_range_is_output(i: int)
    requires
        i < 0 || i >= WgpuView::COUNT,
    ensures
        view_of_ordinal(i) == WgpuView::Output,
{
}

/// Each ordinal in range names the role whose ordinal it is.
pub proof fn lemma_in_range_round_trip(i: int)
    requires
        0 <= i < WgpuView::COUNT,
    ensures
        view_of_ordinal(i).ordinal() == i,
{
}

} // verus!
