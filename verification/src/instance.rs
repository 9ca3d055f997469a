use crate::util::Extent;
use std::collections::HashSet;
use vstd::prelude::*;

verus! {

broadcast use vstd::std_specs::hash::group_hash_axioms;

/// What happened to one surface.
pub enum LoopSurfaceEvent {
    Resized(Extent),
    Redraw,
    ShouldClose,
}

/// An event of the platform's main loop, as far as the decisions read it;
/// surfaces are named by their id.
pub enum LoopEvent {
    Init,
    Surface { id: u64, event: LoopSurfaceEvent },
    EventsCleared,
    Nothing,
}

/// What the main loop does for an event.
pub enum EventAction {
    /// Spawn the application's start future on the main worker.
    StartApp,
    /// Resize the renderer's target for the surface, then render it.
    ResizeAndRender { id: u64, size: Extent },
    /// Render the surface.
    Render { id: u64 },
    Nothing,
}

/// What the main loop does with a `MountNode` request.
pub enum MountAction {
    /// Answer the request with a mount error; nothing is mounted or rendered.
    RefuseWithMountError,
    /// Store the node for the surface, render the surface, and then answer
    /// the request with `Ok`.
    MountRenderAndAnswerOk { id: u64 },
}

/// Whether the main loop waits for the next event or polls again.
pub enum Flow {
    Wait,
    Poll,
}

/// The main loop's bookkeeping: whether the application still has to be
/// started, which surfaces exist and which of them have a node mounted.
pub struct MainLoopState {
    start_pending: bool,
    surfaces: HashSet<u64>,
    mounted: HashSet<u64>,
}

impl MainLoopState {
    /// Only existing surfaces have a node mounted.
    #[verifier::type_invariant]
    spec fn wf(self) -> bool {
        self.mounted@.subset_of(self.surfaces@)
    }

    /// Whether the application's start future has not been spawned yet.
    pub closed spec fn start_pending(self) -> bool {
        self.start_pending
    }

    /// The ids of the surfaces that exist.
    pub closed spec fn surfaces(self) -> Set<u64> {
        self.surfaces@
    }

    /// The ids of the surfaces that have a node mounted.
    pub closed spec fn mounted(self) -> Set<u64> {
        self.mounted@
    }

    /// The state before the loop starts: the application is still to be
    /// started and no surface exists.
    pub fn new() -> (r: Self)
        ensures
            r.start_pending(),
            r.surfaces() == Set::<u64>::empty(),
            r.mounted() == Set::<u64>::empty(),
    {
        MainLoopState { start_pending: true, surfaces: HashSet::new(), mounted: HashSet::new() }
    }

    /// Decides what to do for `event`. The application is started on `Init`,
    /// which comes once; a mounted surface is resized and rendered when it is
    /// resized and rendered when it asks for a redraw; nothing else happens.
    pub fn on_event(&mut self, event: &LoopEvent) -> (r: EventAction)
        requires
            *event is Init ==> old(self).start_pending(),
        ensures
            final(self).surfaces() == old(self).surfaces(),
            final(self).mounted() == old(self).mounted(),
            final(self).start_pending() == (old(self).start_pending() && !(*event is Init)),
            r == (match *event {
                LoopEvent::Init => EventAction::StartApp,
                LoopEvent::Surface { id, event: LoopSurfaceEvent::Resized(size) } => if old(self).mounted().contains(id) {
                    EventAction::ResizeAndRender { id, size }
                } else {
                    EventAction::Nothing
                },
                LoopEvent::Surface { id, event: LoopSurfaceEvent::Redraw } => if old(self).mounted().contains(id) {
                    EventAction::Render { id }
                } else {
                    EventAction::Nothing
                },
                _ => EventAction::Nothing,
            }),
            r matches EventAction::Render { id } ==> old(self).surfaces().contains(id),
            r matches EventAction::ResizeAndRender { id, .. } ==> old(self).surfaces().contains(id),
    {
        proof {
            use_type_invariant(&*self);
        }
        match event {
            LoopEvent::Init => {
                self.start_pending = false;
                EventAction::StartApp
            },
            LoopEvent::Surface { id, event } => match event {
                LoopSurfaceEvent::Resized(extent) => {
                    if self.surfaces.contains(id) && self.mounted.contains(id) {
                        EventAction::ResizeAndRender { id: *id, size: *extent }
                    } else {
                        EventAction::Nothing
                    }
                },
                LoopSurfaceEvent::Redraw => {
                    if self.mounted.contains(id) {
                        EventAction::Render { id: *id }
                    } else {
                        EventAction::Nothing
                    }
                },
                LoopSurfaceEvent::ShouldClose => EventAction::Nothing,
            },
            _ => EventAction::Nothing,
        }
    }

    /// Records the surface that a `CreateSurface` request created.
    pub fn on_surface_created(&mut self, id: u64)
        ensures
            final(self).surfaces() == old(self).surfaces().insert(id),
            final(self).mounted() == old(self).mounted(),
            final(self).start_pending() == old(self).start_pending(),
    {
        proof {
            use_type_invariant(&*self);
        }
        let mut surfaces = HashSet::new();
        let mut mounted = HashSet::new();
        std::mem::swap(&mut mounted, &mut self.mounted);
        std::mem::swap(&mut surfaces, &mut self.surfaces);
        surfaces.insert(id);
        *self = MainLoopState { start_pending: self.start_pending, surfaces, mounted };
    }

    /// Whether a `MountNode` request for `surface_id` can be served: the
    /// surface must exist, else the request is answered with a mount error.
    pub fn can_mount(&self, surface_id: u64) -> (r: bool)
        ensures
            r == self.surfaces().contains(surface_id),
    {
        self.surfaces.contains(&surface_id)
    }

    /// Decides a `MountNode` request for `surface_id`: a surface that does not
    /// exist is answered with a mount error and nothing changes; otherwise
    /// the surface counts as mounted from now on, and its node is to be
    /// stored and the surface rendered before the request is answered `Ok`.
    pub fn on_mount_request(&mut self, surface_id: u64) -> (r: MountAction)
        ensures
            r == (if old(self).surfaces().contains(surface_id) {
                MountAction::MountRenderAndAnswerOk { id: surface_id }
            } else {
                MountAction::RefuseWithMountError
            }),
            final(self).mounted() == (if old(self).surfaces().contains(surface_id) {
                old(self).mounted().insert(surface_id)
            } else {
                old(self).mounted()
            }),
            final(self).surfaces() == old(self).surfaces(),
            final(self).start_pending() == old(self).start_pending(),
    {
        if self.can_mount(surface_id) {
            self.on_mounted(surface_id);
            MountAction::MountRenderAndAnswerOk { id: surface_id }
        } else {
            MountAction::RefuseWithMountError
        }
    }

    /// Records that a node was mounted on the existing surface `surface_id`.
    pub fn on_mounted(&mut self, surface_id: u64)
        requires
            old(self).surfaces().contains(surface_id),
        ensures
            final(self).mounted() == old(self).mounted().insert(surface_id),
            final(self).surfaces() == old(self).surfaces(),
            final(self).start_pending() == old(self).start_pending(),
    {
        proof {
            use_type_invariant(&*self);
        }
        let mut surfaces = HashSet::new();
        let mut mounted = HashSet::new();
        std::mem::swap(&mut mounted, &mut self.mounted);
        std::mem::swap(&mut surfaces, &mut self.surfaces);
        mounted.insert(surface_id);
        *self = MainLoopState { start_pending: self.start_pending, surfaces, mounted };
    }
}

/// The loop polls again while the main worker still has work, and waits for
/// the next event otherwise.
pub fn next_flow(worker_pending: bool) -> (r: Flow)
    ensures
        r == (if worker_pending { Flow::Poll } else { Flow::Wait }),
{
    if worker_pending {
        Flow::Poll
    } else {
        Flow::Wait
    }
}

} // verus!
