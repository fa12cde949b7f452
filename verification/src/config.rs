//! The declarative configuration: which image to run, how to run the
//! container, which branch's pipelines may trigger a redeploy, and the
//! optional shared secret that guards the webhook.
//!
//! The controller holds exactly one current configuration at a time and
//! replaces it wholesale on a reload; nothing here is mutated piecemeal.

use vstd::prelude::*;

verus! {

/// Where the HTTP surface listens, when the file overrides the default.
#[derive(Debug)]
pub struct ServerConfig {
    pub ip_address: Option<String>,
    pub port: Option<u16>,
}

/// The image to keep deployed, pulled as `name:tag`.
#[derive(Debug)]
pub struct ImageConfig {
    pub name: String,
    pub tag: String,
}

/// One `host:target` port mapping, bound on the host side to `0.0.0.0`.
#[derive(Clone, Copy, Debug, PartialEq, Eq, Structural)]
pub struct PortConfig {
    pub host: u32,
    pub target: u32,
}

/// One bind mount; the host path may contain a `$PWD` placeholder that is
/// substituted with the process's working directory when a container starts.
#[derive(Debug)]
pub struct MountConfig {
    pub host: String,
    pub target: String,
}

/// The container to (re)create: its name, command, ports and mounts.
#[derive(Debug)]
pub struct ContainerConfig {
    pub name: String,
    pub command: Vec<String>,
    pub ports: Vec<PortConfig>,
    pub mounts: Vec<MountConfig>,
}

/// Which branch's pipeline completions may trigger a redeploy.
#[derive(Debug)]
pub struct BranchConfig {
    pub name: String,
    pub build_on_failure: bool,
}

/// The periodic health-check endpoint settings.
#[derive(Debug)]
pub struct HeartbeatConfig {
    pub sleep_time: i64,
    pub endpoint: String,
}

/// One immutable configuration snapshot.
#[derive(Debug)]
pub struct DockerDeployConfig {
    pub api_version: String,
    pub validation_key: Option<String>,
    pub server: Option<ServerConfig>,
    pub image: ImageConfig,
    pub container: ContainerConfig,
    pub branch: BranchConfig,
    pub heartbeat: HeartbeatConfig,
}

/// Mathematical image of a [`ServerConfig`].
pub struct ServerCfg {
    pub ip_address: Option<Seq<char>>,
    pub port: Option<u16>,
}

/// Mathematical image of an [`ImageConfig`].
pub struct ImageCfg {
    pub name: Seq<char>,
    pub tag: Seq<char>,
}

/// Mathematical image of a [`MountConfig`].
pub struct MountCfg {
    pub host: Seq<char>,
    pub target: Seq<char>,
}

/// Mathematical image of a [`ContainerConfig`].
pub struct ContainerCfg {
    pub name: Seq<char>,
    pub command: Seq<Seq<char>>,
    pub ports: Seq<PortConfig>,
    pub mounts: Seq<MountCfg>,
}

/// Mathematical image of a [`BranchConfig`].
pub struct BranchCfg {
    pub name: Seq<char>,
    pub build_on_failure: bool,
}

/// Mathematical image of a [`HeartbeatConfig`].
pub struct HeartbeatCfg {
    pub sleep_time: i64,
    pub endpoint: Seq<char>,
}

/// Mathematical image of a [`DockerDeployConfig`].
pub struct Cfg {
    pub api_version: Seq<char>,
    pub validation_key: Option<Seq<char>>,
    pub server: Option<ServerCfg>,
    pub image: ImageCfg,
    pub container: ContainerCfg,
    pub branch: BranchCfg,
    pub heartbeat: HeartbeatCfg,
}

/// View of a mount list, element by element.
pub open spec fn mounts_view(v: Seq<MountConfig>) -> Seq<MountCfg> {
    Seq::new(v.len(), |i: int| v[i]@)
}

impl View for ServerConfig {
    type V = ServerCfg;

    open spec fn view(&self) -> ServerCfg {
        ServerCfg {
            ip_address: match self.ip_address {
                Some(s) => Some(s@),
                None => None,
            },
            port: self.port,
        }
    }
}

impl View for ImageConfig {
    type V = ImageCfg;

    open spec fn view(&self) -> ImageCfg {
        ImageCfg { name: self.name@, tag: self.tag@ }
    }
}

impl View for MountConfig {
    type V = MountCfg;

    open spec fn view(&self) -> MountCfg {
        MountCfg { host: self.host@, target: self.target@ }
    }
}

impl View for ContainerConfig {
    type V = ContainerCfg;

    open spec fn view(&self) -> ContainerCfg {
        ContainerCfg {
            name: self.name@,
            command: self.command.deep_view(),
            ports: self.ports@,
            mounts: mounts_view(self.mounts@),
        }
    }
}

impl View for BranchConfig {
    type V = BranchCfg;

    open spec fn view(&self) -> BranchCfg {
        BranchCfg { name: self.name@, build_on_failure: self.build_on_failure }
    }
}

impl View for HeartbeatConfig {
    type V = HeartbeatCfg;

    open spec fn view(&self) -> HeartbeatCfg {
        HeartbeatCfg { sleep_time: self.sleep_time, endpoint: self.endpoint@ }
    }
}

impl View for DockerDeployConfig {
    type V = Cfg;

    open spec fn view(&self) -> Cfg {
        Cfg {
            api_version: self.api_version@,
            validation_key: match self.validation_key {
                Some(k) => Some(k@),
                None => None,
            },
            server: match self.server {
                Some(s) => Some(s@),
                None => None,
            },
            image: self.image@,
            container: self.container@,
            branch: self.branch@,
            heartbeat: self.heartbeat@,
        }
    }
}

} // verus!
