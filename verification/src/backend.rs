//! The UI backend seam.
//!
//! The bridge is renderer-agnostic: it owns the retained widget tree and hands
//! the drawing to a backend. [`HeadlessBackend`] records activity so the host
//! can be driven and tested without a GPU.

use vstd::prelude::*;
use crate::float::F32;
use crate::json::Json;
use crate::node::Node;
use crate::diff::Patch;
use crate::event::UiEvent;

verus! {

/// Information about the render surface, returned to the guest from
/// `askHost("ui.surfaceInfo", [])`.
#[derive(Debug, Clone, Copy)]
pub struct SurfaceInfo {
    pub width: F32,
    pub height: F32,
    pub scale_factor: F32,
}

impl Default for SurfaceInfo {
    /// An 800 x 600 surface at scale 1.
    fn default() -> (r: SurfaceInfo)
        ensures
            r.width.bits == 0x4448_0000u32,
            r.height.bits == 0x4416_0000u32,
            r.scale_factor.bits == 0x3f80_0000u32,
    {
        SurfaceInfo {
            width: F32::from_bits(0x4448_0000u32),
            height: F32::from_bits(0x4416_0000u32),
            scale_factor: F32::from_bits(0x3f80_0000u32),
        }
    }
}

/// A backend that records the latest tree and counts patches, for tests and
/// headless tooling.
#[derive(Debug)]
pub struct HeadlessBackend {
    pub surface: SurfaceInfo,
    pub tree: Option<Node>,
    pub mounts: u32,
    pub patch_batches: u32,
    pub total_patches: u64,
    pub theme: Option<Json>,
    pub pending_events: Vec<UiEvent>,
    pub commands: Vec<(String, Vec<Json>)>,
}

impl HeadlessBackend {
    /// A backend with the default surface and nothing recorded.
    pub fn new() -> (b: HeadlessBackend)
        ensures
            b.surface.width.bits == 0x4448_0000u32,
            b.surface.height.bits == 0x4416_0000u32,
            b.surface.scale_factor.bits == 0x3f80_0000u32,
            b.tree is None,
            b.mounts == 0,
            b.patch_batches == 0,
            b.total_patches == 0,
            b.theme is None,
            b.pending_events@.len() == 0,
            b.commands@.len() == 0,
    {
        HeadlessBackend::with_surface(SurfaceInfo::default())
    }

    /// A backend with the given surface and nothing recorded.
    pub fn with_surface(surface: SurfaceInfo) -> (b: HeadlessBackend)
        ensures
            b.surface == surface,
            b.tree is None,
            b.mounts == 0,
            b.patch_batches == 0,
            b.total_patches == 0,
            b.theme is None,
            b.pending_events@.len() == 0,
            b.commands@.len() == 0,
    {
        HeadlessBackend {
            surface,
            tree: None,
            mounts: 0,
            patch_batches: 0,
            total_patches: 0,
            theme: None,
            pending_events: Vec::new(),
            commands: Vec::new(),
        }
    }

    /// Queue an event to be delivered to the guest on the next pump.
    pub fn push_event(&mut self, ev: UiEvent)
        ensures
            final(self).pending_events@ == old(self).pending_events@.push(ev),
            final(self).tree == old(self).tree,
            final(self).mounts == old(self).mounts,
            final(self).patch_batches == old(self).patch_batches,
            final(self).total_patches == old(self).total_patches,
            final(self).surface == old(self).surface,
            final(self).theme == old(self).theme,
            final(self).commands == old(self).commands,
    {
        self.pending_events.push(ev);
    }

    /// Install the initial widget tree: keep a copy and count the mount.
    pub fn mount(&mut self, tree: &Node)
        requires
            old(self).mounts < u32::MAX,
        ensures
            final(self).tree matches Some(t) && t@ == tree@,
            final(self).mounts == old(self).mounts + 1,
            final(self).patch_batches == old(self).patch_batches,
            final(self).total_patches == old(self).total_patches,
            final(self).pending_events == old(self).pending_events,
            final(self).commands == old(self).commands,
            final(self).surface == old(self).surface,
            final(self).theme == old(self).theme,
    {
        self.tree = Some(Node::copy_node(tree));
        self.mounts = self.mounts + 1;
    }

    /// Apply an update: keep a copy of the new full tree and count the batch
    /// and its patches.
    pub fn patch(&mut self, tree: &Node, patches: &[Patch])
        requires
            old(self).patch_batches < u32::MAX,
            old(self).total_patches + patches@.len() <= u64::MAX,
        ensures
            final(self).tree matches Some(t) && t@ == tree@,
            final(self).mounts == old(self).mounts,
            final(self).patch_batches == old(self).patch_batches + 1,
            final(self).total_patches == old(self).total_patches + patches@.len(),
            final(self).pending_events == old(self).pending_events,
            final(self).commands == old(self).commands,
            final(self).surface == old(self).surface,
            final(self).theme == old(self).theme,
    {
        self.tree = Some(Node::copy_node(tree));
        self.patch_batches = self.patch_batches + 1;
        self.total_patches = self.total_patches + patches.len() as u64;
    }

    /// The surface geometry.
    pub fn surface_info(&self) -> (s: SurfaceInfo)
        ensures
            s == self.surface,
    {
        self.surface
    }

    /// Keep a copy of a theme blob.
    pub fn set_theme(&mut self, theme: &Json)
        ensures
            final(self).theme matches Some(t) && Json::deep_of(t) == Json::deep_of(*theme),
            final(self).tree == old(self).tree,
            final(self).mounts == old(self).mounts,
            final(self).surface == old(self).surface,
            final(self).patch_batches == old(self).patch_batches,
            final(self).total_patches == old(self).total_patches,
            final(self).pending_events == old(self).pending_events,
            final(self).commands == old(self).commands,
    {
        self.theme = Some(Json::copy_value(theme));
    }

    /// The events queued since the last drain; the queue is left empty.
    pub fn drain_events(&mut self) -> (r: Vec<UiEvent>)
        ensures
            r == old(self).pending_events,
            final(self).pending_events@.len() == 0,
            final(self).tree == old(self).tree,
            final(self).surface == old(self).surface,
            final(self).mounts == old(self).mounts,
            final(self).patch_batches == old(self).patch_batches,
            final(self).total_patches == old(self).total_patches,
            final(self).theme == old(self).theme,
            final(self).commands == old(self).commands,
    {
        let mut out: Vec<UiEvent> = Vec::new();
        std::mem::swap(&mut out, &mut self.pending_events);
        out
    }

    /// Record an imperative command and acknowledge it with `{"ok": true}`.
    pub fn command(&mut self, channel: &str, args: &[Json]) -> (r: Json)
        ensures
            Json::deep_of(r) == crate::hostcall::reply::ok_value(),
            final(self).commands@.len() == old(self).commands@.len() + 1,
            final(self).commands@.last().0@ == channel@,
            Json::items_deep(final(self).commands@.last().1@) == Json::items_deep(args@),
            forall|i: int| 0 <= i < old(self).commands@.len() ==> final(self).commands@[i] == old(self).commands@[i],
            final(self).tree == old(self).tree,
            final(self).pending_events == old(self).pending_events,
            final(self).surface == old(self).surface,
            final(self).mounts == old(self).mounts,
            final(self).patch_batches == old(self).patch_batches,
            final(self).total_patches == old(self).total_patches,
            final(self).theme == old(self).theme,
    {
        let mut copies: Vec<Json> = Vec::new();
        let mut i: usize = 0;
        while i < args.len()
            invariant
                i <= args@.len(),
                copies@.len() == i,
                forall|j: int| 0 <= j < i ==> Json::deep_of(#[trigger] copies@[j]) == Json::deep_of(args@[j]),
            decreases args@.len() - i,
        {
            copies.push(Json::copy_value(&args[i]));
            i += 1;
        }
        assert(Json::items_deep(copies@) =~= Json::items_deep(args@));
        self.commands.push((String::from_str(channel), copies));
        crate::hostcall::reply::ok()
    }
}

} // verus!
