//! The launcher: what is to be started, and what has to be in place before
//! it is.

use crate::address::{escape_path, escaped_path};
use crate::config::{config_document, Auth, BusType, Config, ConfigView};
use crate::process::{Process, ProcessView};
use vstd::prelude::*;
use vstd::string::*;
use vstd::utf8::encode_utf8;

verus! {

/// What the name of the daemon's own directory begins with.
pub const TMP_DIR_PREFIX: &'static str = "dbus-daemon-rs-";

/// A type of a D-Bus daemon.
#[non_exhaustive]
#[derive(Clone, Copy, Debug, Hash, PartialEq, Eq, PartialOrd, Ord, Structural)]
pub enum DaemonType {
    /// A dbus-daemon from the reference implementation.
    DBusDaemon,
    /// A dbus-broker.
    DBusBroker,
}

/// A service that the daemon can start on demand.
#[derive(Clone, Debug)]
pub struct Service {
    pub name: String,
    /// The path of the executable.
    pub executable: String,
}

/// A D-Bus daemon launcher.
#[derive(Clone, Debug)]
pub struct Launcher {
    program: Option<Vec<u8>>,
    daemon_type: DaemonType,
    config: Config,
    services: Vec<Service>,
}

/// A launcher as a mathematical value.
pub struct LauncherView {
    /// The program to run in place of the daemon's usual one.
    pub program: Option<Seq<u8>>,
    pub daemon_type: DaemonType,
    pub config: ConfigView,
    /// The name and the executable of each service.
    pub services: Seq<(Seq<char>, Seq<char>)>,
}

impl View for Launcher {
    type V = LauncherView;

    closed spec fn view(&self) -> LauncherView {
        LauncherView {
            program: match self.program {
                Some(program) => Some(program@),
                None => None,
            },
            daemon_type: self.daemon_type,
            config: self.config@,
            services: self.services@.map_values(|s: Service| (s.name@, s.executable@)),
        }
    }
}

/// A file that has to be in the daemon's directory before the daemon is
/// started.
#[derive(Debug)]
pub struct File {
    pub name: String,
    pub contents: String,
}

/// The socket that a broker is handed.
#[derive(Debug)]
pub struct Socket {
    /// The name of the socket in the daemon's directory.
    pub name: String,
    /// The address of the message bus.
    pub address: String,
}

/// What a launch consists of, apart from the process itself.
#[derive(Debug)]
pub struct LaunchPlan {
    pub daemon_type: DaemonType,
    /// The program to run in place of the daemon's usual one.
    pub program: Option<Vec<u8>>,
    /// The files to write, in this order: one for each service, and the
    /// daemon's configuration.
    pub files: Vec<File>,
    /// The name of the configuration file among them.
    pub config_file: String,
    /// The socket to bind and to hand to the daemon, if the daemon is one
    /// that is handed its socket.
    pub socket: Option<Socket>,
}

/// A plan as a mathematical value.
pub struct LaunchPlanView {
    pub daemon_type: DaemonType,
    pub program: Option<Seq<u8>>,
    /// Each file's name and contents.
    pub files: Seq<(Seq<char>, Seq<char>)>,
    pub config_file: Seq<char>,
    /// The socket's name and the address of the bus.
    pub socket: Option<(Seq<char>, Seq<char>)>,
}

impl View for LaunchPlan {
    type V = LaunchPlanView;

    open spec fn view(&self) -> LaunchPlanView {
        LaunchPlanView {
            daemon_type: self.daemon_type,
            program: match self.program {
                Some(program) => Some(program@),
                None => None,
            },
            files: self.files@.map_values(|f: File| (f.name@, f.contents@)),
            config_file: self.config_file@,
            socket: match self.socket {
                Some(socket) => Some((socket.name@, socket.address@)),
                None => None,
            },
        }
    }
}

/// The address of a socket that the daemon makes for itself in this
/// directory.
pub open spec fn directory_address(dir: Seq<u8>) -> Seq<char> {
    "unix:dir="@ + escaped_path(dir)
}

/// The path of the broker's socket in this directory.
pub open spec fn socket_path(dir: Seq<u8>) -> Seq<u8> {
    if dir.len() == 0 || dir.last() == 0x2f {
        dir + encode_utf8("socket"@)
    } else {
        dir + seq![0x2fu8] + encode_utf8("socket"@)
    }
}

/// The address of the broker's socket in this directory.
pub open spec fn socket_address(dir: Seq<u8>) -> Seq<char> {
    "unix:path="@ + escaped_path(socket_path(dir))
}

/// The configuration that the daemon is started with. A dbus-daemon that
/// is given no address listens in its own directory. The directory is
/// searched for services if the launcher has any.
pub open spec fn effective_config(l: LauncherView, tmp_dir: Seq<char>) -> ConfigView {
    ConfigView {
        listen: if l.daemon_type == DaemonType::DBusDaemon && l.config.listen.len() == 0 {
            seq![directory_address(encode_utf8(tmp_dir))]
        } else {
            l.config.listen
        },
        service_dirs: if l.services.len() > 0 {
            l.config.service_dirs.push(tmp_dir)
        } else {
            l.config.service_dirs
        },
        ..l.config
    }
}

/// The name and the contents of the file that describes a service.
pub open spec fn service_file(service: (Seq<char>, Seq<char>)) -> (Seq<char>, Seq<char>) {
    (
        service.0 + ".service"@,
        "[D-BUS Service]\nName="@ + service.0 + "\nExec="@ + service.1 + "\n"@,
    )
}

/// What it takes to launch the daemon in the directory `tmp_dir`.
pub open spec fn launch_plan(l: LauncherView, tmp_dir: Seq<char>) -> LaunchPlanView {
    LaunchPlanView {
        daemon_type: l.daemon_type,
        program: l.program,
        files: l.services.map_values(|s: (Seq<char>, Seq<char>)| service_file(s)).push(
            ("daemon.conf"@, config_document(effective_config(l, tmp_dir))),
        ),
        config_file: "daemon.conf"@,
        socket: match l.daemon_type {
            DaemonType::DBusDaemon => None,
            DaemonType::DBusBroker => Some(
                ("socket"@, socket_address(encode_utf8(tmp_dir))),
            ),
        },
    }
}

/// A copy of a list of strings.
fn copy_strings(list: &Vec<String>) -> (copy: Vec<String>)
    ensures
        copy@.map_values(|s: String| s@) == list@.map_values(|s: String| s@),
{
    let mut copy: Vec<String> = Vec::new();
    for i in 0..list.len()
        invariant
            copy@.map_values(|s: String| s@) == list@.map_values(|s: String| s@).take(i as int),
    {
        let ghost before = copy@.map_values(|s: String| s@);
        copy.push(list[i].clone());
        proof {
            assert(copy@.map_values(|s: String| s@) =~= before.push(list@[i as int]@));
            assert(list@.map_values(|s: String| s@).take(i + 1) =~= list@.map_values(
                |s: String| s@,
            ).take(i as int).push(list@[i as int]@));
        }
    }
    proof {
        assert(list@.map_values(|s: String| s@).take(list.len() as int) =~= list@.map_values(
            |s: String| s@,
        ));
    }
    copy
}

/// A copy of a list of authentication mechanisms.
fn copy_auth(list: &Vec<Auth>) -> (copy: Vec<Auth>)
    ensures
        copy@ == list@,
{
    let mut copy: Vec<Auth> = Vec::new();
    for i in 0..list.len()
        invariant
            copy@ == list@.take(i as int),
    {
        copy.push(list[i]);
        proof {
            assert(list@.take(i + 1) =~= list@.take(i as int).push(list@[i as int]));
        }
    }
    proof {
        assert(list@.take(list.len() as int) =~= list@);
    }
    copy
}

/// The address of a socket that the daemon makes for itself in this
/// directory. Such an address is used, and not one of a socket in a
/// temporary directory, so that the socket has a path, not an abstract name.
pub fn directory_address_of(dir: &[u8]) -> (address: String)
    ensures
        address@ == directory_address(dir@),
{
    let mut address = String::new();
    address.append("unix:dir=");
    address.append(escape_path(dir).as_str());
    address
}

/// The address of the broker's socket in this directory.
pub fn socket_address_of(dir: &[u8]) -> (address: String)
    ensures
        address@ == socket_address(dir@),
{
    let mut path: Vec<u8> = vstd::slice::slice_to_vec(dir);
    if dir.len() > 0 && dir[dir.len() - 1] != 0x2f {
        path.push(0x2f);
    }
    let ghost before = path@;
    let name = "socket".as_bytes();
    for i in 0..name.len()
        invariant
            path@ == before + name@.take(i as int),
    {
        path.push(name[i]);
        proof {
            assert(name@.take(i + 1) =~= name@.take(i as int).push(name@[i as int]));
        }
    }
    proof {
        assert(name@.take(name.len() as int) =~= name@);
        assert(path@ =~= socket_path(dir@));
    }
    let mut address = String::new();
    address.append("unix:path=");
    address.append(escape_path(path.as_slice()).as_str());
    address
}

/// The configuration that nothing was added to.
pub open spec fn empty_config() -> ConfigView {
    ConfigView {
        bus_type: None,
        allow_anonymous: false,
        listen: Seq::empty(),
        auth: Seq::empty(),
        service_dirs: Seq::empty(),
    }
}

impl Launcher {
    /// Returns a new launcher for given type of D-Bus daemon.
    pub fn new(daemon_type: DaemonType) -> (launcher: Launcher)
        ensures
            launcher@ == (LauncherView {
                program: None,
                daemon_type,
                config: empty_config(),
                services: Seq::empty(),
            }),
    {
        let launcher = Launcher {
            program: None,
            daemon_type,
            config: Config::default(),
            services: Vec::new(),
        };
        assert(launcher@.services =~= Seq::empty());
        launcher
    }

    /// Returns a new launcher for dbus-daemon.
    pub fn daemon() -> (launcher: Launcher)
        ensures
            launcher@ == (LauncherView {
                program: None,
                daemon_type: DaemonType::DBusDaemon,
                config: empty_config(),
                services: Seq::empty(),
            }),
    {
        Self::new(DaemonType::DBusDaemon)
    }

    /// Returns a new launcher for dbus-broker.
    pub fn broker() -> (launcher: Launcher)
        ensures
            launcher@ == (LauncherView {
                program: None,
                daemon_type: DaemonType::DBusBroker,
                config: empty_config(),
                services: Seq::empty(),
            }),
    {
        Self::new(DaemonType::DBusBroker)
    }

    /// The well-known type of the message bus.
    pub fn bus_type(&mut self, bus_type: BusType) -> (this: &mut Self)
        ensures
            this@ == (LauncherView {
                config: ConfigView { bus_type: Some(bus_type), ..old(self)@.config },
                ..old(self)@
            }),
            *final(self) == *final(this),
    {
        self.config.bus_type = Some(bus_type);
        self
    }

    /// Listen on an additional address.
    ///
    /// By default daemon will listen on a Unix domain socket in a temporary
    /// directory.
    pub fn listen(&mut self, listen: &str) -> (this: &mut Self)
        ensures
            this@ == (LauncherView {
                config: ConfigView {
                    listen: old(self)@.config.listen.push(listen@),
                    ..old(self)@.config
                },
                ..old(self)@
            }),
            *final(self) == *final(this),
    {
        self.config.listen.push(listen.to_owned());
        assert(self@.config.listen =~= old(self)@.config.listen.push(listen@));
        self
    }

    /// Authorize connections using anonymous mechanism.
    ///
    /// This option has no practical effect unless the anonymous mechanism is
    /// also enabled.
    pub fn allow_anonymous(&mut self) -> (this: &mut Self)
        ensures
            this@ == (LauncherView {
                config: ConfigView { allow_anonymous: true, ..old(self)@.config },
                ..old(self)@
            }),
            *final(self) == *final(this),
    {
        self.config.allow_anonymous = true;
        self
    }

    /// Allow authorization mechanism.
    ///
    /// By default all known mechanisms are allowed.
    pub fn auth(&mut self, auth: Auth) -> (this: &mut Self)
        ensures
            this@ == (LauncherView {
                config: ConfigView {
                    auth: old(self)@.config.auth.push(auth),
                    ..old(self)@.config
                },
                ..old(self)@
            }),
            *final(self) == *final(this),
    {
        self.config.auth.push(auth);
        self
    }

    /// Adds a directory to search for .service files.
    pub fn service_dir(&mut self, path: &str) -> (this: &mut Self)
        ensures
            this@ == (LauncherView {
                config: ConfigView {
                    service_dirs: old(self)@.config.service_dirs.push(path@),
                    ..old(self)@.config
                },
                ..old(self)@
            }),
            *final(self) == *final(this),
    {
        self.config.service_dirs.push(path.to_owned());
        assert(self@.config.service_dirs =~= old(self)@.config.service_dirs.push(path@));
        self
    }

    /// Adds a service file with given name and executable path.
    pub fn service(&mut self, name: &str, executable: &str) -> (this: &mut Self)
        ensures
            this@ == (LauncherView {
                services: old(self)@.services.push((name@, executable@)),
                ..old(self)@
            }),
            *final(self) == *final(this),
    {
        let name = name.to_owned();
        let executable = executable.to_owned();
        self.services.push(Service { name, executable });
        assert(self@.services =~= old(self)@.services.push((name@, executable@)));
        self
    }

    /// Sets the program to run in place of the daemon's usual one.
    pub fn program(&mut self, program: &[u8]) -> (this: &mut Self)
        ensures
            this@ == (LauncherView { program: Some(program@), ..old(self)@ }),
            *final(self) == *final(this),
    {
        self.program = Some(vstd::slice::slice_to_vec(program));
        self
    }

    /// The configuration that the daemon is started with in `tmp_dir`.
    fn effective(&self, tmp_dir: &str) -> (config: Config)
        ensures
            config@ == effective_config(self@, tmp_dir@),
    {
        let mut config = Config {
            bus_type: self.config.bus_type,
            allow_anonymous: self.config.allow_anonymous,
            listen: copy_strings(&self.config.listen),
            auth: copy_auth(&self.config.auth),
            service_dirs: copy_strings(&self.config.service_dirs),
        };
        assert(config@ == self@.config);
        if self.daemon_type == DaemonType::DBusDaemon && config.listen.len() == 0 {
            config.listen.push(directory_address_of(tmp_dir.as_bytes()));
            assert(config@.listen =~= seq![directory_address(encode_utf8(tmp_dir@))]);
        }
        if self.services.len() > 0 {
            let ghost before = config@.service_dirs;
            config.service_dirs.push(tmp_dir.to_owned());
            assert(config@.service_dirs =~= before.push(tmp_dir@));
        }
        config
    }

    /// Plans the launch of the daemon in the directory `tmp_dir`, a
    /// directory of the daemon's own: the files that have to be written
    /// there, and the socket to bind there if the daemon is handed one.
    pub fn launch(&self, tmp_dir: &str) -> (plan: LaunchPlan)
        ensures
            plan@ == launch_plan(self@, tmp_dir@),
    {
        let mut files: Vec<File> = Vec::new();
        let ghost services = self@.services;
        for i in 0..self.services.len()
            invariant
                services == self@.services,
                files@.map_values(|f: File| (f.name@, f.contents@)) == services.map_values(
                    |s: (Seq<char>, Seq<char>)| service_file(s),
                ).take(i as int),
        {
            let service = &self.services[i];
            let mut name = String::new();
            name.append(service.name.as_str());
            name.append(".service");
            let mut contents = String::new();
            contents.append("[D-BUS Service]\nName=");
            contents.append(service.name.as_str());
            contents.append("\nExec=");
            contents.append(service.executable.as_str());
            contents.append("\n");
            let ghost before = files@.map_values(|f: File| (f.name@, f.contents@));
            files.push(File { name, contents });
            proof {
                let all = services.map_values(|s: (Seq<char>, Seq<char>)| service_file(s));
                assert(name@ =~= service_file(services[i as int]).0);
                assert(contents@ =~= service_file(services[i as int]).1);
                assert(files@.map_values(|f: File| (f.name@, f.contents@)) =~= before.push(
                    (name@, contents@),
                ));
                assert(all.take(i + 1) =~= all.take(i as int).push(all[i as int]));
            }
        }
        let config = self.effective(tmp_dir);
        let ghost before = files@.map_values(|f: File| (f.name@, f.contents@));
        let mut name = String::new();
        name.append("daemon.conf");
        let contents = config.to_xml();
        files.push(File { name, contents });
        proof {
            let all = services.map_values(|s: (Seq<char>, Seq<char>)| service_file(s));
            assert(all.take(self.services.len() as int) =~= all);
            assert(files@.map_values(|f: File| (f.name@, f.contents@)) =~= before.push(
                (name@, contents@),
            ));
        }
        let socket = match self.daemon_type {
            DaemonType::DBusDaemon => None,
            DaemonType::DBusBroker => {
                let mut name = String::new();
                name.append("socket");
                Some(Socket { name, address: socket_address_of(tmp_dir.as_bytes()) })
            },
        };
        let program = match &self.program {
            Some(program) => Some(vstd::slice::slice_to_vec(program.as_slice())),
            None => None,
        };
        let mut config_file = String::new();
        config_file.append("daemon.conf");
        LaunchPlan { daemon_type: self.daemon_type, program, files, config_file, socket }
    }
}

/// A running D-Bus daemon process.
#[derive(Debug)]
pub struct Daemon {
    address: String,
    config_dir: String,
    process: Process,
}

/// A daemon as a mathematical value.
pub struct DaemonView {
    pub address: Seq<char>,
    pub config_dir: Seq<char>,
    pub process: ProcessView,
}

impl View for Daemon {
    type V = DaemonView;

    closed spec fn view(&self) -> DaemonView {
        DaemonView {
            address: self.address@,
            config_dir: self.config_dir@,
            process: self.process@,
        }
    }
}

impl Daemon {
    /// The daemon that runs as `process`, listens on `address` and has its
    /// files in `config_dir`.
    pub fn new(address: String, config_dir: String, process: Process) -> (daemon: Daemon)
        ensures
            daemon@ == (DaemonView {
                address: address@,
                config_dir: config_dir@,
                process: process@,
            }),
    {
        Daemon { address, config_dir, process }
    }

    /// Returns the address of the message bus.
    pub fn address(&self) -> (address: &str)
        ensures
            address@ == self@.address,
    {
        self.address.as_str()
    }

    /// Returns the path to daemon configuration directory.
    pub fn config_dir(&self) -> (path: &str)
        ensures
            path@ == self@.config_dir,
    {
        self.config_dir.as_str()
    }

    /// Returns the PID of the daemon process.
    pub fn pid(&self) -> (pid: i32)
        ensures
            pid == self@.process.pid,
    {
        self.process.pid()
    }

    /// The handle of the daemon process, by which it is taken down.
    pub fn process(&mut self) -> (process: &mut Process)
        ensures
            process@ == old(self)@.process,
            final(self)@ == (DaemonView { process: final(process)@, ..old(self)@ }),
    {
        &mut self.process
    }
}

} // verus!
