//! The configuration of an Elpis sandbox instance and the capabilities it
//! grants the guest.

use vstd::prelude::*;
use crate::backend::SurfaceInfo;

verus! {

/// A capability family of the guest VM.
#[derive(Debug, Clone, Copy, PartialEq, Eq, Structural)]
pub enum Capability {
    Logging,
    Clock,
    Randomness,
    /// The UI bridge, storage, host messaging, theme, router and animation
    /// families.
    Other,
    Network,
    /// The fabricated filesystem.
    Storage,
    ModuleImport,
}

/// Configuration for an Elpis sandbox instance.
#[derive(Debug)]
pub struct SandboxConfig {
    /// Unique instance id (the VM machine id).
    pub id: String,
    /// Grant outbound network (`net.*`). Denied by default.
    pub allow_network: bool,
    /// Grant the fabricated filesystem (`fs.*`). Denied by default.
    pub allow_filesystem: bool,
    /// Grant runtime module import (`vm.import`). Denied by default.
    pub allow_module_import: bool,
    /// Prepend the UI prelude to the Miniapp source.
    pub include_prelude: bool,
    /// Optional surface geometry reported to the guest (else the backend's).
    pub surface: Option<SurfaceInfo>,
    /// Max event/render settle iterations per pump (loop guard).
    pub max_settle_iterations: u32,
}

impl Default for SandboxConfig {
    /// The instance `elpis-instance`: network, filesystem and module import
    /// denied, the prelude included, no surface override, at most 64 settle
    /// iterations.
    fn default() -> (c: SandboxConfig)
        ensures
            c.id@ == "elpis-instance"@,
            !c.allow_network,
            !c.allow_filesystem,
            !c.allow_module_import,
            c.include_prelude,
            c.surface is None,
            c.max_settle_iterations == 64,
    {
        SandboxConfig::new(String::from_str("elpis-instance"))
    }
}

/// The capabilities a configuration grants: logging, clock, randomness and
/// the UI families always, then network, filesystem and module import where
/// allowed, in that order.
pub open spec fn granted(allow_network: bool, allow_filesystem: bool, allow_module_import: bool) -> Seq<Capability> {
    seq![Capability::Logging, Capability::Clock, Capability::Randomness, Capability::Other]
        + (if allow_network { seq![Capability::Network] } else { Seq::empty() })
        + (if allow_filesystem { seq![Capability::Storage] } else { Seq::empty() })
        + (if allow_module_import { seq![Capability::ModuleImport] } else { Seq::empty() })
}

impl SandboxConfig {
    /// The default configuration with the given instance id.
    pub fn new(id: String) -> (c: SandboxConfig)
        ensures
            c.id == id,
            !c.allow_network,
            !c.allow_filesystem,
            !c.allow_module_import,
            c.include_prelude,
            c.surface is None,
            c.max_settle_iterations == 64,
    {
        SandboxConfig {
            id,
            allow_network: false,
            allow_filesystem: false,
            allow_module_import: false,
            include_prelude: true,
            surface: None,
            max_settle_iterations: 64,
        }
    }

    /// The capabilities the guest gets: everything else is denied.
    pub fn capabilities(&self) -> (r: Vec<Capability>)
        ensures
            r@ == granted(self.allow_network, self.allow_filesystem, self.allow_module_import),
    {
        let mut caps: Vec<Capability> = Vec::new();
        caps.push(Capability::Logging);
        caps.push(Capability::Clock);
        caps.push(Capability::Randomness);
        caps.push(Capability::Other);
        let ghost base = caps@;
        if self.allow_network {
            caps.push(Capability::Network);
        }
        let ghost with_net = caps@;
        if self.allow_filesystem {
            caps.push(Capability::Storage);
        }
        let ghost with_fs = caps@;
        if self.allow_module_import {
            caps.push(Capability::ModuleImport);
        }
        proof {
            let n: Seq<Capability> = if self.allow_network { seq![Capability::Network] } else { Seq::empty() };
            let f: Seq<Capability> = if self.allow_filesystem { seq![Capability::Storage] } else { Seq::empty() };
            let m: Seq<Capability> = if self.allow_module_import { seq![Capability::ModuleImport] } else { Seq::empty() };
            assert(base =~= seq![Capability::Logging, Capability::Clock, Capability::Randomness, Capability::Other]);
            assert(with_net =~= base + n);
            assert(with_fs =~= base + n + f);
            assert(caps@ =~= base + n + f + m);
        }
        caps
    }
}

} // verus!
