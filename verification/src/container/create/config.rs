//! The settings of a container to create.

use crate::additionals::EmptyObject;
use crate::additionals::host::host_config::{HostConfig, HostConfigModel};
use crate::additionals::network::network_settings::{NetworkSettings, NetworkSettingsModel};
use crate::container::health_check::{HealthCheck, HealthCheckModel};
use crate::dict::{put, Dict};
use vstd::prelude::*;

verus! {

/// Accumulates the fields of a [`Config`].
#[derive(Debug)]
pub struct ConfigBuilder {
    pub hostname: Option<String>,
    pub domain_name: Option<String>,
    pub user: Option<String>,
    pub attach_stdin: Option<bool>,
    pub attach_stdout: Option<bool>,
    pub attach_stderr: Option<bool>,
    pub exposed_ports: Dict<EmptyObject>,
    pub tty: Option<bool>,
    pub open_stdin: Option<bool>,
    pub stdin_once: Option<bool>,
    pub env: Vec<String>,
    pub cmd: Vec<String>,
    pub health_check: Option<HealthCheck>,
    pub args_escaped: Option<bool>,
    pub image: Option<String>,
    pub volumes: Dict<EmptyObject>,
    pub work_dir: Option<String>,
    pub entry_point: Vec<String>,
    pub network_disabled: Option<bool>,
    pub mac_address: Option<String>,
    pub on_build: Vec<String>,
    pub labels: Dict<String>,
    pub stop_signal: Option<String>,
    pub stop_timeout: Option<i32>,
    pub shell: Vec<String>,
    pub host_config: Option<HostConfig>,
    pub network_config: Option<NetworkSettings>,
}

/// What a [`ConfigBuilder`] holds.
pub struct ConfigBuilderModel {
    pub hostname: Option<Seq<char>>,
    pub domain_name: Option<Seq<char>>,
    pub user: Option<Seq<char>>,
    pub attach_stdin: Option<bool>,
    pub attach_stdout: Option<bool>,
    pub attach_stderr: Option<bool>,
    pub exposed_ports: Seq<(Seq<char>, EmptyObject)>,
    pub tty: Option<bool>,
    pub open_stdin: Option<bool>,
    pub stdin_once: Option<bool>,
    pub env: Seq<Seq<char>>,
    pub cmd: Seq<Seq<char>>,
    pub health_check: Option<HealthCheckModel>,
    pub args_escaped: Option<bool>,
    pub image: Option<Seq<char>>,
    pub volumes: Seq<(Seq<char>, EmptyObject)>,
    pub work_dir: Option<Seq<char>>,
    pub entry_point: Seq<Seq<char>>,
    pub network_disabled: Option<bool>,
    pub mac_address: Option<Seq<char>>,
    pub on_build: Seq<Seq<char>>,
    pub labels: Seq<(Seq<char>, Seq<char>)>,
    pub stop_signal: Option<Seq<char>>,
    pub stop_timeout: Option<i32>,
    pub shell: Seq<Seq<char>>,
    pub host_config: Option<HostConfigModel>,
    pub network_config: Option<NetworkSettingsModel>,
}

impl View for ConfigBuilder {
    type V = ConfigBuilderModel;

    open spec fn view(&self) -> ConfigBuilderModel {
        ConfigBuilderModel {
            hostname: self.hostname.deep_view(),
            domain_name: self.domain_name.deep_view(),
            user: self.user.deep_view(),
            attach_stdin: self.attach_stdin,
            attach_stdout: self.attach_stdout,
            attach_stderr: self.attach_stderr,
            exposed_ports: self.exposed_ports.deep_view(),
            tty: self.tty,
            open_stdin: self.open_stdin,
            stdin_once: self.stdin_once,
            env: self.env.deep_view(),
            cmd: self.cmd.deep_view(),
            health_check: self.health_check.deep_view(),
            args_escaped: self.args_escaped,
            image: self.image.deep_view(),
            volumes: self.volumes.deep_view(),
            work_dir: self.work_dir.deep_view(),
            entry_point: self.entry_point.deep_view(),
            network_disabled: self.network_disabled,
            mac_address: self.mac_address.deep_view(),
            on_build: self.on_build.deep_view(),
            labels: self.labels.deep_view(),
            stop_signal: self.stop_signal.deep_view(),
            stop_timeout: self.stop_timeout,
            shell: self.shell.deep_view(),
            host_config: self.host_config.deep_view(),
            network_config: self.network_config.deep_view(),
        }
    }
}

impl DeepView for ConfigBuilder {
    type V = ConfigBuilderModel;

    open spec fn deep_view(&self) -> ConfigBuilderModel {
        self@
    }
}

/// The settings of a container.
#[derive(Debug)]
pub struct Config {
    pub hostname: Option<String>,
    pub domain_name: Option<String>,
    pub user: Option<String>,
    pub attach_stdin: Option<bool>,
    pub attach_stdout: Option<bool>,
    pub attach_stderr: Option<bool>,
    pub exposed_ports: Dict<EmptyObject>,
    pub tty: Option<bool>,
    pub open_stdin: Option<bool>,
    pub stdin_once: Option<bool>,
    pub env: Vec<String>,
    pub labels: Dict<String>,
    pub cmd: Vec<String>,
    pub entry_point: Vec<String>,
    pub image: Option<String>,
    pub volumes: Dict<EmptyObject>,
    pub health_check: Option<HealthCheck>,
    pub work_dir: Option<String>,
    pub network_disabled: Option<bool>,
    pub network_config: Option<NetworkSettings>,
    pub host_config: Option<HostConfig>,
}

/// What a [`Config`] holds.
pub struct ConfigModel {
    pub hostname: Option<Seq<char>>,
    pub domain_name: Option<Seq<char>>,
    pub user: Option<Seq<char>>,
    pub attach_stdin: Option<bool>,
    pub attach_stdout: Option<bool>,
    pub attach_stderr: Option<bool>,
    pub exposed_ports: Seq<(Seq<char>, EmptyObject)>,
    pub tty: Option<bool>,
    pub open_stdin: Option<bool>,
    pub stdin_once: Option<bool>,
    pub env: Seq<Seq<char>>,
    pub labels: Seq<(Seq<char>, Seq<char>)>,
    pub cmd: Seq<Seq<char>>,
    pub entry_point: Seq<Seq<char>>,
    pub image: Option<Seq<char>>,
    pub volumes: Seq<(Seq<char>, EmptyObject)>,
    pub health_check: Option<HealthCheckModel>,
    pub work_dir: Option<Seq<char>>,
    pub network_disabled: Option<bool>,
    pub network_config: Option<NetworkSettingsModel>,
    pub host_config: Option<HostConfigModel>,
}

impl View for Config {
    type V = ConfigModel;

    open spec fn view(&self) -> ConfigModel {
        ConfigModel {
            hostname: self.hostname.deep_view(),
            domain_name: self.domain_name.deep_view(),
            user: self.user.deep_view(),
            attach_stdin: self.attach_stdin,
            attach_stdout: self.attach_stdout,
            attach_stderr: self.attach_stderr,
            exposed_ports: self.exposed_ports.deep_view(),
            tty: self.tty,
            open_stdin: self.open_stdin,
            stdin_once: self.stdin_once,
            env: self.env.deep_view(),
            labels: self.labels.deep_view(),
            cmd: self.cmd.deep_view(),
            entry_point: self.entry_point.deep_view(),
            image: self.image.deep_view(),
            volumes: self.volumes.deep_view(),
            health_check: self.health_check.deep_view(),
            work_dir: self.work_dir.deep_view(),
            network_disabled: self.network_disabled,
            network_config: self.network_config.deep_view(),
            host_config: self.host_config.deep_view(),
        }
    }
}

impl DeepView for Config {
    type V = ConfigModel;

    open spec fn deep_view(&self) -> ConfigModel {
        self@
    }
}

impl Clone for Config {
    fn clone(&self) -> (res: Self)
        ensures
            res@ == self@,
    {
        let hostname = self.hostname.clone();
        let domain_name = self.domain_name.clone();
        let user = self.user.clone();
        let exposed_ports = self.exposed_ports.clone();
        assert(exposed_ports.deep_view() =~= self.exposed_ports.deep_view());
        let env = self.env.clone();
        assert(env.deep_view() =~= self.env.deep_view());
        let labels = self.labels.clone();
        assert(labels.deep_view() =~= self.labels.deep_view());
        let cmd = self.cmd.clone();
        assert(cmd.deep_view() =~= self.cmd.deep_view());
        let entry_point = self.entry_point.clone();
        assert(entry_point.deep_view() =~= self.entry_point.deep_view());
        let image = self.image.clone();
        let volumes = self.volumes.clone();
        assert(volumes.deep_view() =~= self.volumes.deep_view());
        let health_check = self.health_check.clone();
        assert(health_check.deep_view() =~= self.health_check.deep_view());
        let work_dir = self.work_dir.clone();
        let network_config = self.network_config.clone();
        assert(network_config.deep_view() =~= self.network_config.deep_view());
        let host_config = self.host_config.clone();
        assert(host_config.deep_view() =~= self.host_config.deep_view());
        Config {
            hostname,
            domain_name,
            user,
            attach_stdin: self.attach_stdin,
            attach_stdout: self.attach_stdout,
            attach_stderr: self.attach_stderr,
            exposed_ports,
            tty: self.tty,
            open_stdin: self.open_stdin,
            stdin_once: self.stdin_once,
            env,
            labels,
            cmd,
            entry_point,
            image,
            volumes,
            health_check,
            work_dir,
            network_disabled: self.network_disabled,
            network_config,
            host_config,
        }
    }
}

/// The settings with nothing set.
pub open spec fn blank_config() -> ConfigModel {
    ConfigModel {
        hostname: None,
        domain_name: None,
        user: None,
        attach_stdin: None,
        attach_stdout: None,
        attach_stderr: None,
        exposed_ports: Seq::empty(),
        tty: None,
        open_stdin: None,
        stdin_once: None,
        env: Seq::empty(),
        labels: Seq::empty(),
        cmd: Seq::empty(),
        entry_point: Seq::empty(),
        image: None,
        volumes: Seq::empty(),
        health_check: None,
        work_dir: None,
        network_disabled: None,
        network_config: None,
        host_config: None,
    }
}

impl Default for Config {
    fn default() -> (b: Self)
        ensures
            b@ == (ConfigModel {
                hostname: None,
                domain_name: None,
                user: None,
                attach_stdin: None,
                attach_stdout: None,
                attach_stderr: None,
                exposed_ports: Seq::empty(),
                tty: None,
                open_stdin: None,
                stdin_once: None,
                env: Seq::empty(),
                labels: Seq::empty(),
                cmd: Seq::empty(),
                entry_point: Seq::empty(),
                image: None,
                volumes: Seq::empty(),
                health_check: None,
                work_dir: None,
                network_disabled: None,
                network_config: None,
                host_config: None,
            }),
    {
        let b = Config {
            hostname: None,
            domain_name: None,
            user: None,
            attach_stdin: None,
            attach_stdout: None,
            attach_stderr: None,
            exposed_ports: Dict::new(),
            tty: None,
            open_stdin: None,
            stdin_once: None,
            env: Vec::new(),
            labels: Dict::new(),
            cmd: Vec::new(),
            entry_point: Vec::new(),
            image: None,
            volumes: Dict::new(),
            health_check: None,
            work_dir: None,
            network_disabled: None,
            network_config: None,
            host_config: None,
        };
        assert(b.exposed_ports.deep_view() =~= Seq::<(Seq<char>, EmptyObject)>::empty());
        assert(b.env.deep_view() =~= Seq::<Seq<char>>::empty());
        assert(b.labels.deep_view() =~= Seq::<(Seq<char>, Seq<char>)>::empty());
        assert(b.cmd.deep_view() =~= Seq::<Seq<char>>::empty());
        assert(b.entry_point.deep_view() =~= Seq::<Seq<char>>::empty());
        assert(b.volumes.deep_view() =~= Seq::<(Seq<char>, EmptyObject)>::empty());
        b
    }
}

impl ConfigBuilder {
    /// A builder with nothing set.
    pub fn new() -> (b: Self)
        ensures
            b@ == (ConfigBuilderModel {
                hostname: None,
                domain_name: None,
                user: None,
                attach_stdin: None,
                attach_stdout: None,
                attach_stderr: None,
                exposed_ports: Seq::empty(),
                tty: None,
                open_stdin: None,
                stdin_once: None,
                env: Seq::empty(),
                cmd: Seq::empty(),
                health_check: None,
                args_escaped: None,
                image: None,
                volumes: Seq::empty(),
                work_dir: None,
                entry_point: Seq::empty(),
                network_disabled: None,
                mac_address: None,
                on_build: Seq::empty(),
                labels: Seq::empty(),
                stop_signal: None,
                stop_timeout: None,
                shell: Seq::empty(),
                host_config: None,
                network_config: None,
            }),
    {
        let b = ConfigBuilder {
            hostname: None,
            domain_name: None,
            user: None,
            attach_stdin: None,
            attach_stdout: None,
            attach_stderr: None,
            exposed_ports: Dict::new(),
            tty: None,
            open_stdin: None,
            stdin_once: None,
            env: Vec::new(),
            cmd: Vec::new(),
            health_check: None,
            args_escaped: None,
            image: None,
            volumes: Dict::new(),
            work_dir: None,
            entry_point: Vec::new(),
            network_disabled: None,
            mac_address: None,
            on_build: Vec::new(),
            labels: Dict::new(),
            stop_signal: None,
            stop_timeout: None,
            shell: Vec::new(),
            host_config: None,
            network_config: None,
        };
        assert(b.exposed_ports.deep_view() =~= Seq::<(Seq<char>, EmptyObject)>::empty());
        assert(b.env.deep_view() =~= Seq::<Seq<char>>::empty());
        assert(b.cmd.deep_view() =~= Seq::<Seq<char>>::empty());
        assert(b.volumes.deep_view() =~= Seq::<(Seq<char>, EmptyObject)>::empty());
        assert(b.entry_point.deep_view() =~= Seq::<Seq<char>>::empty());
        assert(b.on_build.deep_view() =~= Seq::<Seq<char>>::empty());
        assert(b.labels.deep_view() =~= Seq::<(Seq<char>, Seq<char>)>::empty());
        assert(b.shell.deep_view() =~= Seq::<Seq<char>>::empty());
        b
    }

    /// Sets the host-side settings.
    pub fn host_config(&mut self, cfg: HostConfig) -> (ret: &mut Self)
        ensures
            ret@ == (ConfigBuilderModel { host_config: Some(cfg.deep_view()), ..old(self)@ }),
            *final(self) == *final(ret),
    {
        self.host_config = Some(cfg);
        self
    }

    /// A builder with the image `image` and nothing else set.
    pub fn with_image(image: &str) -> (b: Self)
        ensures
            b@ == (ConfigBuilderModel {
                hostname: None,
                domain_name: None,
                user: None,
                attach_stdin: None,
                attach_stdout: None,
                attach_stderr: None,
                exposed_ports: Seq::empty(),
                tty: None,
                open_stdin: None,
                stdin_once: None,
                env: Seq::empty(),
                cmd: Seq::empty(),
                health_check: None,
                args_escaped: None,
                image: Some(image@),
                volumes: Seq::empty(),
                work_dir: None,
                entry_point: Seq::empty(),
                network_disabled: None,
                mac_address: None,
                on_build: Seq::empty(),
                labels: Seq::empty(),
                stop_signal: None,
                stop_timeout: None,
                shell: Seq::empty(),
                host_config: None,
                network_config: None,
            }),
    {
        let b = ConfigBuilder {
            hostname: None,
            domain_name: None,
            user: None,
            attach_stdin: None,
            attach_stdout: None,
            attach_stderr: None,
            exposed_ports: Dict::new(),
            tty: None,
            open_stdin: None,
            stdin_once: None,
            env: Vec::new(),
            cmd: Vec::new(),
            health_check: None,
            args_escaped: None,
            image: Some(image.to_owned()),
            volumes: Dict::new(),
            work_dir: None,
            entry_point: Vec::new(),
            network_disabled: None,
            mac_address: None,
            on_build: Vec::new(),
            labels: Dict::new(),
            stop_signal: None,
            stop_timeout: None,
            shell: Vec::new(),
            host_config: None,
            network_config: None,
        };
        assert(b.exposed_ports.deep_view() =~= Seq::<(Seq<char>, EmptyObject)>::empty());
        assert(b.env.deep_view() =~= Seq::<Seq<char>>::empty());
        assert(b.cmd.deep_view() =~= Seq::<Seq<char>>::empty());
        assert(b.volumes.deep_view() =~= Seq::<(Seq<char>, EmptyObject)>::empty());
        assert(b.entry_point.deep_view() =~= Seq::<Seq<char>>::empty());
        assert(b.on_build.deep_view() =~= Seq::<Seq<char>>::empty());
        assert(b.labels.deep_view() =~= Seq::<(Seq<char>, Seq<char>)>::empty());
        assert(b.shell.deep_view() =~= Seq::<Seq<char>>::empty());
        b
    }

    /// Sets the host name of the container.
    pub fn hostname(&mut self, name: &str) -> (ret: &mut Self)
        ensures
            ret@ == (ConfigBuilderModel { hostname: Some(name@), ..old(self)@ }),
            *final(self) == *final(ret),
    {
        self.hostname = Some(name.to_owned());
        self
    }

    /// Sets the domain name of the container.
    pub fn domain_name(&mut self, name: &str) -> (ret: &mut Self)
        ensures
            ret@ == (ConfigBuilderModel { domain_name: Some(name@), ..old(self)@ }),
            *final(self) == *final(ret),
    {
        self.domain_name = Some(name.to_owned());
        self
    }

    /// Sets the user that runs the commands in the container.
    pub fn user(&mut self, name: &str) -> (ret: &mut Self)
        ensures
            ret@ == (ConfigBuilderModel { user: Some(name@), ..old(self)@ }),
            *final(self) == *final(ret),
    {
        self.user = Some(name.to_owned());
        self
    }

    /// Sets whether standard input is attached.
    pub fn attach_stdin(&mut self, b: bool) -> (ret: &mut Self)
        ensures
            ret@ == (ConfigBuilderModel { attach_stdin: Some(b), ..old(self)@ }),
            *final(self) == *final(ret),
    {
        self.attach_stdin = Some(b);
        self
    }

    /// Sets whether standard output is attached.
    pub fn attach_stdout(&mut self, b: bool) -> (ret: &mut Self)
        ensures
            ret@ == (ConfigBuilderModel { attach_stdout: Some(b), ..old(self)@ }),
            *final(self) == *final(ret),
    {
        self.attach_stdout = Some(b);
        self
    }

    /// Sets whether standard error is attached.
    pub fn attach_stderr(&mut self, b: bool) -> (ret: &mut Self)
        ensures
            ret@ == (ConfigBuilderModel { attach_stderr: Some(b), ..old(self)@ }),
            *final(self) == *final(ret),
    {
        self.attach_stderr = Some(b);
        self
    }

    /// Exposes the port `port`.
    pub fn expose_port(&mut self, port: &str) -> (ret: &mut Self)
        ensures
            ret@ == (ConfigBuilderModel { exposed_ports: put(old(self)@.exposed_ports, port@, EmptyObject), ..old(self)@ }),
            *final(self) == *final(ret),
    {
        self.exposed_ports.set(port, EmptyObject);
        self
    }

    /// Sets whether a terminal is allocated.
    pub fn tty(&mut self, b: bool) -> (ret: &mut Self)
        ensures
            ret@ == (ConfigBuilderModel { tty: Some(b), ..old(self)@ }),
            *final(self) == *final(ret),
    {
        self.tty = Some(b);
        self
    }

    /// Sets whether standard input is kept open.
    pub fn open_stdin(&mut self, b: bool) -> (ret: &mut Self)
        ensures
            ret@ == (ConfigBuilderModel { open_stdin: Some(b), ..old(self)@ }),
            *final(self) == *final(ret),
    {
        self.open_stdin = Some(b);
        self
    }

    /// Sets whether standard input is closed after the first client detaches.
    pub fn stdin_once(&mut self, b: bool) -> (ret: &mut Self)
        ensures
            ret@ == (ConfigBuilderModel { stdin_once: Some(b), ..old(self)@ }),
            *final(self) == *final(ret),
    {
        self.stdin_once = Some(b);
        self
    }

    /// Appends one environment variable, as `NAME=value`.
    pub fn env(&mut self, env: &str) -> (ret: &mut Self)
        ensures
            ret@ == (ConfigBuilderModel { env: old(self)@.env.push(env@), ..old(self)@ }),
            *final(self) == *final(ret),
    {
        self.env.push(env.to_owned());
        assert(self.env.deep_view() =~= old(self)@.env.push(env@));
        self
    }

    /// Appends one word to the command.
    pub fn cmd(&mut self, cmd: &str) -> (ret: &mut Self)
        ensures
            ret@ == (ConfigBuilderModel { cmd: old(self)@.cmd.push(cmd@), ..old(self)@ }),
            *final(self) == *final(ret),
    {
        self.cmd.push(cmd.to_owned());
        assert(self.cmd.deep_view() =~= old(self)@.cmd.push(cmd@));
        self
    }

    /// Sets the health check.
    pub fn health_check(&mut self, health_check: Option<HealthCheck>) -> (ret: &mut Self)
        ensures
            ret@ == (ConfigBuilderModel { health_check: health_check.deep_view(), ..old(self)@ }),
            *final(self) == *final(ret),
    {
        self.health_check = health_check;
        self
    }

    /// Sets whether the command is escaped already.
    pub fn args_escaped(&mut self, b: bool) -> (ret: &mut Self)
        ensures
            ret@ == (ConfigBuilderModel { args_escaped: Some(b), ..old(self)@ }),
            *final(self) == *final(ret),
    {
        self.args_escaped = Some(b);
        self
    }

    /// Sets the image of the container.
    pub fn image(&mut self, image: &str) -> (ret: &mut Self)
        ensures
            ret@ == (ConfigBuilderModel { image: Some(image@), ..old(self)@ }),
            *final(self) == *final(ret),
    {
        self.image = Some(image.to_owned());
        self
    }

    /// Adds the mount point `volume`.
    pub fn volume(&mut self, volume: &str) -> (ret: &mut Self)
        ensures
            ret@ == (ConfigBuilderModel { volumes: put(old(self)@.volumes, volume@, EmptyObject), ..old(self)@ }),
            *final(self) == *final(ret),
    {
        self.volumes.set(volume, EmptyObject);
        self
    }

    /// Sets the working directory of the commands.
    pub fn work_dir(&mut self, work_dir: &str) -> (ret: &mut Self)
        ensures
            ret@ == (ConfigBuilderModel { work_dir: Some(work_dir@), ..old(self)@ }),
            *final(self) == *final(ret),
    {
        self.work_dir = Some(work_dir.to_owned());
        self
    }

    /// Appends one word to the entry point.
    pub fn entry_point(&mut self, entry_point: &str) -> (ret: &mut Self)
        ensures
            ret@ == (ConfigBuilderModel { entry_point: old(self)@.entry_point.push(entry_point@), ..old(self)@ }),
            *final(self) == *final(ret),
    {
        self.entry_point.push(entry_point.to_owned());
        assert(self.entry_point.deep_view() =~= old(self)@.entry_point.push(entry_point@));
        self
    }

    /// Sets whether networking is disabled.
    pub fn network_disabled(&mut self, b: bool) -> (ret: &mut Self)
        ensures
            ret@ == (ConfigBuilderModel { network_disabled: Some(b), ..old(self)@ }),
            *final(self) == *final(ret),
    {
        self.network_disabled = Some(b);
        self
    }

    /// Sets the MAC address of the container.
    pub fn mac_address(&mut self, mac_address: &str) -> (ret: &mut Self)
        ensures
            ret@ == (ConfigBuilderModel { mac_address: Some(mac_address@), ..old(self)@ }),
            *final(self) == *final(ret),
    {
        self.mac_address = Some(mac_address.to_owned());
        self
    }

    /// Appends one build trigger.
    pub fn on_build(&mut self, cmd: &str) -> (ret: &mut Self)
        ensures
            ret@ == (ConfigBuilderModel { on_build: old(self)@.on_build.push(cmd@), ..old(self)@ }),
            *final(self) == *final(ret),
    {
        self.on_build.push(cmd.to_owned());
        assert(self.on_build.deep_view() =~= old(self)@.on_build.push(cmd@));
        self
    }

    /// Sets the label `k` to `v`.
    pub fn label(&mut self, k: &str, v: &str) -> (ret: &mut Self)
        ensures
            ret@ == (ConfigBuilderModel { labels: put(old(self)@.labels, k@, v@), ..old(self)@ }),
            *final(self) == *final(ret),
    {
        self.labels.set(k, v.to_owned());
        self
    }

    /// Sets the signal that stops the container.
    pub fn stop_signal(&mut self, stop_signal: &str) -> (ret: &mut Self)
        ensures
            ret@ == (ConfigBuilderModel { stop_signal: Some(stop_signal@), ..old(self)@ }),
            *final(self) == *final(ret),
    {
        self.stop_signal = Some(stop_signal.to_owned());
        self
    }

    /// Sets the time to wait for the container to stop, in seconds.
    pub fn stop_timeout(&mut self, time: Option<i32>) -> (ret: &mut Self)
        ensures
            ret@ == (ConfigBuilderModel { stop_timeout: time, ..old(self)@ }),
            *final(self) == *final(ret),
    {
        self.stop_timeout = time;
        self
    }

    /// Appends one word to the shell.
    pub fn shell(&mut self, cmd: &str) -> (ret: &mut Self)
        ensures
            ret@ == (ConfigBuilderModel { shell: old(self)@.shell.push(cmd@), ..old(self)@ }),
            *final(self) == *final(ret),
    {
        self.shell.push(cmd.to_owned());
        assert(self.shell.deep_view() =~= old(self)@.shell.push(cmd@));
        self
    }

    /// Sets the networks.
    pub fn network_config(&mut self, cfg: Option<NetworkSettings>) -> (ret: &mut Self)
        ensures
            ret@ == (ConfigBuilderModel { network_config: cfg.deep_view(), ..old(self)@ }),
            *final(self) == *final(ret),
    {
        self.network_config = cfg;
        self
    }

    /// The settings with the fields set so far.
    pub fn build(&self) -> (res: Config)
        ensures
            res@ == (ConfigModel {
                hostname: self@.hostname,
                domain_name: self@.domain_name,
                user: self@.user,
                attach_stdin: self@.attach_stdin,
                attach_stdout: self@.attach_stdout,
                attach_stderr: self@.attach_stderr,
                exposed_ports: self@.exposed_ports,
                tty: self@.tty,
                open_stdin: self@.open_stdin,
                stdin_once: self@.stdin_once,
                env: self@.env,
                labels: self@.labels,
                cmd: self@.cmd,
                entry_point: self@.entry_point,
                image: self@.image,
                volumes: self@.volumes,
                health_check: self@.health_check,
                work_dir: self@.work_dir,
                network_disabled: self@.network_disabled,
                network_config: self@.network_config,
                host_config: self@.host_config,
            }),
    {
        let hostname = self.hostname.clone();
        let domain_name = self.domain_name.clone();
        let user = self.user.clone();
        let exposed_ports = self.exposed_ports.clone();
        assert(exposed_ports.deep_view() =~= self.exposed_ports.deep_view());
        let env = self.env.clone();
        assert(env.deep_view() =~= self.env.deep_view());
        let labels = self.labels.clone();
        assert(labels.deep_view() =~= self.labels.deep_view());
        let cmd = self.cmd.clone();
        assert(cmd.deep_view() =~= self.cmd.deep_view());
        let entry_point = self.entry_point.clone();
        assert(entry_point.deep_view() =~= self.entry_point.deep_view());
        let image = self.image.clone();
        let volumes = self.volumes.clone();
        assert(volumes.deep_view() =~= self.volumes.deep_view());
        let health_check = self.health_check.clone();
        assert(health_check.deep_view() =~= self.health_check.deep_view());
        let work_dir = self.work_dir.clone();
        let network_config = self.network_config.clone();
        assert(network_config.deep_view() =~= self.network_config.deep_view());
        let host_config = self.host_config.clone();
        assert(host_config.deep_view() =~= self.host_config.deep_view());
        Config {
            hostname,
            domain_name,
            user,
            attach_stdin: self.attach_stdin,
            attach_stdout: self.attach_stdout,
            attach_stderr: self.attach_stderr,
            exposed_ports,
            tty: self.tty,
            open_stdin: self.open_stdin,
            stdin_once: self.stdin_once,
            env,
            labels,
            cmd,
            entry_point,
            image,
            volumes,
            health_check,
            work_dir,
            network_disabled: self.network_disabled,
            network_config,
            host_config,
        }
    }
}

impl Config {
    /// A builder with nothing set.
    pub fn new() -> (b: ConfigBuilder)
        ensures
            b@ == (ConfigBuilderModel {
                hostname: None,
                domain_name: None,
                user: None,
                attach_stdin: None,
                attach_stdout: None,
                attach_stderr: None,
                exposed_ports: Seq::empty(),
                tty: None,
                open_stdin: None,
                stdin_once: None,
                env: Seq::empty(),
                cmd: Seq::empty(),
                health_check: None,
                args_escaped: None,
                image: None,
                volumes: Seq::empty(),
                work_dir: None,
                entry_point: Seq::empty(),
                network_disabled: None,
                mac_address: None,
                on_build: Seq::empty(),
                labels: Seq::empty(),
                stop_signal: None,
                stop_timeout: None,
                shell: Seq::empty(),
                host_config: None,
                network_config: None,
            }),
    {
        ConfigBuilder::new()
    }

    /// A builder with the image `image` and nothing else set.
    pub fn with_image(image: &str) -> (b: ConfigBuilder)
        ensures
            b@ == (ConfigBuilderModel {
                hostname: None,
                domain_name: None,
                user: None,
                attach_stdin: None,
                attach_stdout: None,
                attach_stderr: None,
                exposed_ports: Seq::empty(),
                tty: None,
                open_stdin: None,
                stdin_once: None,
                env: Seq::empty(),
                cmd: Seq::empty(),
                health_check: None,
                args_escaped: None,
                image: Some(image@),
                volumes: Seq::empty(),
                work_dir: None,
                entry_point: Seq::empty(),
                network_disabled: None,
                mac_address: None,
                on_build: Seq::empty(),
                labels: Seq::empty(),
                stop_signal: None,
                stop_timeout: None,
                shell: Seq::empty(),
                host_config: None,
                network_config: None,
            }),
    {
        ConfigBuilder::with_image(image)
    }
}

} // verus!
