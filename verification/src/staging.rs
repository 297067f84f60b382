//! The life of the staging buffer: the host-readable buffer that carries the
//! results out of device memory.
//!
//! A staging buffer is created unmapped. A mapping is requested and resolves
//! to ready or to failed. A ready mapping is viewed, read, and, once every
//! view is released, unmapped again. Each step below names the states it may
//! be taken from, so code that follows another order does not verify.

use vstd::prelude::*;

verus! {

/// Where a staging buffer stands in its life.
#[derive(Clone, Copy, Debug, PartialEq, Eq, Structural)]
pub enum MapState {
    /// Not mapped: freshly created, or unmapped again and free to be dropped.
    Unmapped,
    /// A mapping was requested and has not resolved yet.
    MapRequested,
    /// The mapping resolved; no view has been taken yet.
    MapReady,
    /// The mapping was refused. Nothing follows.
    MapFailed,
    /// A view into the mapped range was handed to the host.
    Mapped,
    /// The host copied the mapped range out through its view.
    Read,
}

/// A staging buffer as the host knows it.
#[derive(Clone, Copy, Debug, PartialEq, Eq, Structural)]
pub struct Staging {
    /// Size in bytes.
    pub size: u64,
    /// Current state.
    pub state: MapState,
    /// Views into the mapped range that the host still holds.
    pub views: u32,
}

impl Staging {
    /// Whether host memory is attached to the buffer.
    pub open spec fn is_mapped(self) -> bool {
        self.state == MapState::MapReady || self.state == MapState::Mapped || self.state
            == MapState::Read
    }

    /// Views exist only into a range that was mapped and viewed.
    pub open spec fn wf(self) -> bool {
        self.views > 0 ==> self.state == MapState::Mapped || self.state == MapState::Read
    }

    /// Whether the buffer may be dropped or reused: nothing is mapped and no
    /// request is in flight.
    pub open spec fn is_released(self) -> bool {
        &&& self.views == 0
        &&& self.state == MapState::Unmapped || self.state == MapState::MapFailed
    }

    /// A buffer of `size` bytes as created.
    pub open spec fn fresh(size: u64) -> Staging {
        Staging { size, state: MapState::Unmapped, views: 0 }
    }

    /// The buffer after a mapping was requested.
    pub open spec fn requested(self) -> Staging {
        Staging { state: MapState::MapRequested, ..self }
    }

    /// The buffer after its mapping request resolved.
    pub open spec fn resolved(self, ok: bool) -> Staging {
        Staging { state: if ok { MapState::MapReady } else { MapState::MapFailed }, ..self }
    }

    /// The buffer after one more view was taken.
    pub open spec fn viewed(self) -> Staging {
        Staging { state: MapState::Mapped, views: (self.views + 1) as u32, ..self }
    }

    /// The buffer after the host copied its contents out.
    pub open spec fn read(self) -> Staging {
        Staging { state: MapState::Read, ..self }
    }

    /// The buffer after one view was released.
    pub open spec fn released(self) -> Staging {
        Staging { views: (self.views - 1) as u32, ..self }
    }

    /// The buffer after it was unmapped.
    pub open spec fn unmapped(self) -> Staging {
        Staging { state: MapState::Unmapped, ..self }
    }

    /// Records the creation of a staging buffer of `size` bytes.
    pub fn new(size: u64) -> (staging: Staging)
        ensures
            staging == Staging::fresh(size),
            staging.wf(),
            staging.is_released(),
    {
        Staging { size, state: MapState::Unmapped, views: 0 }
    }

    /// Records that a mapping was requested.
    pub fn request_map(&mut self)
        requires
            old(self).wf(),
            old(self).state == MapState::Unmapped,
        ensures
            *final(self) == old(self).requested(),
            final(self).wf(),
    {
        self.state = MapState::MapRequested;
    }

    /// Records how the mapping request resolved.
    pub fn resolve(&mut self, ok: bool)
        requires
            old(self).wf(),
            old(self).state == MapState::MapRequested,
        ensures
            *final(self) == old(self).resolved(ok),
            final(self).wf(),
            ok <==> final(self).is_mapped(),
            !ok ==> final(self).is_released(),
    {
        self.state = if ok {
            MapState::MapReady
        } else {
            MapState::MapFailed
        };
    }

    /// Records that the host took a view into the mapped range. The host may
    /// not look at the buffer before its mapping is ready.
    pub fn open_view(&mut self)
        requires
            old(self).wf(),
            old(self).is_mapped(),
            old(self).views < u32::MAX,
        ensures
            *final(self) == old(self).viewed(),
            final(self).wf(),
            final(self).views == old(self).views + 1,
    {
        self.state = MapState::Mapped;
        self.views = self.views + 1;
    }

    /// Records that the host copied the mapped range out through a view.
    pub fn mark_read(&mut self)
        requires
            old(self).wf(),
            old(self).is_mapped(),
            old(self).views > 0,
        ensures
            *final(self) == old(self).read(),
            final(self).wf(),
    {
        self.state = MapState::Read;
    }

    /// Records that the host released one of its views.
    pub fn release_view(&mut self)
        requires
            old(self).wf(),
            old(self).views > 0,
        ensures
            *final(self) == old(self).released(),
            final(self).wf(),
            final(self).is_mapped(),
            final(self).views == old(self).views - 1,
    {
        self.views = self.views - 1;
    }

    /// Records that the buffer was unmapped. Every view must have been
    /// released before.
    pub fn unmap(&mut self)
        requires
            old(self).wf(),
            old(self).is_mapped(),
            old(self).views == 0,
        ensures
            *final(self) == old(self).unmapped(),
            final(self).wf(),
            final(self).is_released(),
    {
        self.state = MapState::Unmapped;
    }
}

/// A mapped buffer is let go by giving back its views one by one and then
/// unmapping it: while a view is held, releasing it leaves the buffer mapped
/// with one view fewer; once none is held, unmapping releases the buffer.
pub proof fn lemma_release_path(staging: Staging)
    requires
        staging.wf(),
        staging.is_mapped(),
    ensures
        staging.views > 0 ==> staging.released().wf() && staging.released().is_mapped()
            && staging.released().views < staging.views,
        staging.views == 0 ==> staging.unmapped().is_released(),
{
}

} // verus!
