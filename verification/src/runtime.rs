//! Rendering a run plan into the exact strings the container runtime's
//! create call takes: bind strings `host:target` (with `$PWD` in the host
//! path substituted and relative host paths joined onto the working
//! directory), and port bindings keyed `port/tcp` and bound to `0.0.0.0`.

use crate::config::MountCfg;
use crate::config::MountConfig;
use crate::config::PortConfig;
use crate::controller::RunPlan;
use crate::controller::RunPlanAt;
use crate::text::chars_of;
use crate::text::decimal_string;
use crate::text::join_path_chars;
use crate::text::replace_chars;
use crate::text::spec_decimal;
use crate::text::spec_join_path;
use crate::text::spec_replace;
use crate::text::string_from_chars;
use vstd::prelude::*;
use vstd::string::StringExecFns;

verus! {

/// One rendered port mapping: the container-side key, and the host binding.
#[derive(Debug)]
pub struct PortBindingPlan {
    pub container_port: String,
    pub host_ip: String,
    pub host_port: String,
}

/// Mathematical image of a [`PortBindingPlan`].
#[verifier::ext_equal]
pub struct PortBindingAt {
    pub container_port: Seq<char>,
    pub host_ip: Seq<char>,
    pub host_port: Seq<char>,
}

impl View for PortBindingPlan {
    type V = PortBindingAt;

    open spec fn view(&self) -> PortBindingAt {
        PortBindingAt {
            container_port: self.container_port@,
            host_ip: self.host_ip@,
            host_port: self.host_port@,
        }
    }
}

/// View of a rendered port list, element by element.
pub open spec fn port_plans_view(v: Seq<PortBindingPlan>) -> Seq<PortBindingAt> {
    Seq::new(v.len(), |i: int| v[i]@)
}

/// Everything the create-and-start call takes, rendered to plain strings.
#[derive(Debug)]
pub struct RenderedRun {
    pub name: String,
    pub image: String,
    pub cmd: Vec<String>,
    pub binds: Vec<String>,
    pub ports: Vec<PortBindingPlan>,
}

/// Mathematical image of a [`RenderedRun`].
#[verifier::ext_equal]
pub struct RenderedRunAt {
    pub name: Seq<char>,
    pub image: Seq<char>,
    pub cmd: Seq<Seq<char>>,
    pub binds: Seq<Seq<char>>,
    pub ports: Seq<PortBindingAt>,
}

impl View for RenderedRun {
    type V = RenderedRunAt;

    open spec fn view(&self) -> RenderedRunAt {
        RenderedRunAt {
            name: self.name@,
            image: self.image@,
            cmd: self.cmd.deep_view(),
            binds: self.binds.deep_view(),
            ports: port_plans_view(self.ports@),
        }
    }
}

/// The bind string of one mount: the host path, with `$PWD` substituted by
/// the working directory and a relative result joined onto it, then `:`, then
/// the target path.
pub open spec fn spec_bind(m: MountCfg, cwd: Seq<char>) -> Seq<char> {
    spec_join_path(cwd, spec_replace(m.host, "$PWD"@, cwd)) + ":"@ + m.target
}

/// The runtime's key for a TCP port.
pub open spec fn spec_port_key(port: u32) -> Seq<char> {
    spec_decimal(port as nat) + "/tcp"@
}

/// One rendered port mapping: container port as the key, the host port bound
/// on every interface.
pub open spec fn spec_port_binding(p: PortConfig) -> PortBindingAt {
    PortBindingAt {
        container_port: spec_port_key(p.target),
        host_ip: "0.0.0.0"@,
        host_port: spec_port_key(p.host),
    }
}

/// A whole plan rendered against one working directory.
pub open spec fn spec_render(plan: RunPlanAt, cwd: Seq<char>) -> RenderedRunAt {
    RenderedRunAt {
        name: plan.name,
        image: plan.image,
        cmd: plan.cmd,
        binds: Seq::new(plan.mounts.len(), |i: int| spec_bind(plan.mounts[i], cwd)),
        ports: Seq::new(plan.ports.len(), |i: int| spec_port_binding(plan.ports[i])),
    }
}

/// Render one mount's bind string.
fn bind_string(m: &MountConfig, cwd: &Vec<char>) -> (b: String)
    ensures
        b@ == spec_bind(m@, cwd@),
{
    let pat: Vec<char> = chars_of("$PWD");
    let host_chars: Vec<char> = chars_of(m.host.as_str());
    let replaced: Vec<char> = replace_chars(&host_chars, &pat, cwd);
    let joined: Vec<char> = join_path_chars(cwd, &replaced);
    string_from_chars(&joined).concat(":").concat(m.target.as_str())
}

/// Render one port mapping.
fn port_binding(p: PortConfig) -> (r: PortBindingPlan)
    ensures
        r@ == spec_port_binding(p),
{
    PortBindingPlan {
        container_port: decimal_string(p.target).concat("/tcp"),
        host_ip: "0.0.0.0".to_owned(),
        host_port: decimal_string(p.host).concat("/tcp"),
    }
}

/// Render a run plan against the process's working directory: the exact
/// name, image, command, bind strings and port bindings to hand the runtime.
pub fn render_run(plan: RunPlan, cwd: &str) -> (r: RenderedRun)
    ensures
        r@ == spec_render(plan@, cwd@),
{
    let cwd_chars: Vec<char> = chars_of(cwd);

    let mut binds: Vec<String> = Vec::new();
    let mut i: usize = 0;
    while i < plan.mounts.len()
        invariant
            cwd_chars@ == cwd@,
            i <= plan.mounts@.len(),
            binds@.len() == i,
            forall|j: int| 0 <= j < i ==> binds@[j]@ == spec_bind(plan.mounts@[j]@, cwd@),
        decreases plan.mounts@.len() - i,
    {
        binds.push(bind_string(&plan.mounts[i], &cwd_chars));
        i += 1;
    }

    let mut ports: Vec<PortBindingPlan> = Vec::new();
    let mut k: usize = 0;
    while k < plan.ports.len()
        invariant
            k <= plan.ports@.len(),
            ports@.len() == k,
            forall|j: int| 0 <= j < k ==> ports@[j]@ == spec_port_binding(plan.ports@[j]),
        decreases plan.ports@.len() - k,
    {
        ports.push(port_binding(plan.ports[k]));
        k += 1;
    }

    let r = RenderedRun { name: plan.name, image: plan.image, cmd: plan.cmd, binds, ports };
    proof {
        assert(r@.binds =~= spec_render(plan@, cwd@).binds);
        assert(r@.ports =~= spec_render(plan@, cwd@).ports);
        assert(r@ =~= spec_render(plan@, cwd@));
    }
    r
}

} // verus!
