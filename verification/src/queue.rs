//! Queue family selection.
//!
//! A device exposes a list of queue families; the renderer needs one family
//! with graphics support and one able to present to the surface. The scan
//! over the reported capabilities is pure logic; the capability bits
//! themselves are supplied by the caller.

use vstd::prelude::*;

verus! {

/// The capabilities of one queue family, as reported by the device.
#[derive(Clone, Copy, Debug, PartialEq, Eq, Structural)]
pub struct QueueFamilyInfo {
    /// The family's queues accept graphics commands.
    pub supports_graphics: bool,
    /// The family's queues can present to the target surface.
    pub supports_present: bool,
}

/// `i` is the first family in `families` that supports graphics.
pub open spec fn is_first_graphics(families: Seq<QueueFamilyInfo>, i: int) -> bool {
    &&& 0 <= i < families.len()
    &&& families[i].supports_graphics
    &&& forall|j: int| 0 <= j < i ==> !families[j].supports_graphics
}

/// `i` is the first family in `families` that can present.
pub open spec fn is_first_present(families: Seq<QueueFamilyInfo>, i: int) -> bool {
    &&& 0 <= i < families.len()
    &&& families[i].supports_present
    &&& forall|j: int| 0 <= j < i ==> !families[j].supports_present
}

/// The graphics and present family indices found by scanning a device's
/// queue families; either may be absent.
#[derive(Clone, Copy, Debug, PartialEq, Eq, Structural)]
pub struct QueueFamilyIndices {
    graphics_family: Option<u32>,
    present_family: Option<u32>,
}

impl QueueFamilyIndices {
    pub closed spec fn spec_graphics_family(self) -> Option<u32> {
        self.graphics_family
    }

    pub closed spec fn spec_present_family(self) -> Option<u32> {
        self.present_family
    }

    /// Scans the reported queue families and records the first
    /// graphics-capable and the first present-capable family, if any.
    pub fn new(families: &Vec<QueueFamilyInfo>) -> (r: Self)
        requires
            families@.len() <= u32::MAX,
        ensures
            match r.spec_graphics_family() {
                Some(i) => is_first_graphics(families@, i as int),
                None => forall|j: int|
                    0 <= j < families@.len() ==> !families@[j].supports_graphics,
            },
            match r.spec_present_family() {
                Some(i) => is_first_present(families@, i as int),
                None => forall|j: int|
                    0 <= j < families@.len() ==> !families@[j].supports_present,
            },
    {
        let mut graphics_family: Option<u32> = None;
        let mut present_family: Option<u32> = None;
        let len = families.len();
        let mut i: usize = 0;
        while i < len
            invariant
                i <= len,
                len == families@.len(),
                len <= u32::MAX,
                match graphics_family {
                    Some(g) => is_first_graphics(families@, g as int) && g < i,
                    None => forall|j: int| 0 <= j < i ==> !families@[j].supports_graphics,
                },
                match present_family {
                    Some(p) => is_first_present(families@, p as int) && p < i,
                    None => forall|j: int| 0 <= j < i ==> !families@[j].supports_present,
                },
            decreases len - i,
        {
            let family = families[i];
            if graphics_family.is_none() && family.supports_graphics {
                graphics_family = Some(i as u32);
            }
            if present_family.is_none() && family.supports_present {
                present_family = Some(i as u32);
            }
            i = i + 1;
        }
        QueueFamilyIndices { graphics_family, present_family }
    }

    /// Both families were found: packages them as a complete pair. Returns
    /// `None` exactly when either family is missing.
    pub fn complete(self) -> (r: Option<CompleteQueueFamilyIndices>)
        ensures
            r is Some <==> (self.spec_graphics_family() is Some && self.spec_present_family()
                is Some),
            r matches Some(c) ==> Some(c.spec_graphics_family()) == self.spec_graphics_family()
                && Some(c.spec_present_family()) == self.spec_present_family(),
    {
        match (self.graphics_family, self.present_family) {
            (Some(graphics_family), Some(present_family)) => Some(
                CompleteQueueFamilyIndices { graphics_family, present_family },
            ),
            _ => None,
        }
    }

    /// Whether both a graphics-capable and a present-capable family were
    /// found.
    pub fn is_complete(&self) -> (b: bool)
        ensures
            b == (self.spec_graphics_family() is Some && self.spec_present_family() is Some),
    {
        self.graphics_family.is_some() && self.present_family.is_some()
    }
}

/// A resolved pair of queue family indices; constructing one requires both
/// families to exist, so every dependent object can rely on them.
#[derive(Clone, Copy, Debug, PartialEq, Eq, Structural)]
pub struct CompleteQueueFamilyIndices {
    graphics_family: u32,
    present_family: u32,
}

impl CompleteQueueFamilyIndices {
    pub closed spec fn spec_graphics_family(self) -> u32 {
        self.graphics_family
    }

    pub closed spec fn spec_present_family(self) -> u32 {
        self.present_family
    }

    /// Index of the graphics-capable queue family.
    pub fn graphics_family(self) -> (r: u32)
        ensures
            r == self.spec_graphics_family(),
    {
        self.graphics_family
    }

    /// Index of the present-capable queue family.
    pub fn present_family(self) -> (r: u32)
        ensures
            r == self.spec_present_family(),
    {
        self.present_family
    }
}

} // verus!
