use vstd::prelude::*;

verus! {

pub const DEFAULT_IP_ADDRESS: &'static str = "127.0.0.1";

pub const DEFAULT_PORT: u16 = 8192;

pub const DEFAULT_OUTPUT_PATH: &'static str = ".";

/// A reason to end the program at once.
#[derive(Clone, Copy, Debug, PartialEq, Eq, Structural)]
pub enum Fatal {
    InvalidPort,
    PortInUse,
    NoAvailablePorts,
    InvalidThreads,
    ConnectFailed,
    InvalidAddress,
    OutputNotADirectory,
}

impl Fatal {
    /// The exit code that tells the reasons apart.
    pub open spec fn exit_code(self) -> i32 {
        match self {
            Fatal::InvalidPort => 1,
            Fatal::PortInUse => 2,
            Fatal::NoAvailablePorts => 3,
            Fatal::InvalidThreads => 4,
            Fatal::ConnectFailed => 5,
            Fatal::InvalidAddress => 6,
            Fatal::OutputNotADirectory => 7,
        }
    }

    pub fn code(&self) -> (code: i32)
        ensures
            code == self.exit_code(),
            1 <= code <= 7,
    {
        match self {
            Fatal::InvalidPort => 1,
            Fatal::PortInUse => 2,
            Fatal::NoAvailablePorts => 3,
            Fatal::InvalidThreads => 4,
            Fatal::ConnectFailed => 5,
            Fatal::InvalidAddress => 6,
            Fatal::OutputNotADirectory => 7,
        }
    }
}

/// What to do about the output directory that was asked for.
#[derive(Clone, Copy, Debug, PartialEq, Eq, Structural)]
pub enum OutputPlan {
    /// It is a directory: use it.
    Use,
    /// Nothing is there: create it.
    Create,
    /// Something else is there.
    Refuse(Fatal),
}

/// Decides about the output directory from what is at its path.
pub fn plan_output(exists: bool, is_dir: bool) -> (plan: OutputPlan)
    ensures
        !exists ==> plan == OutputPlan::Create,
        exists && is_dir ==> plan == OutputPlan::Use,
        exists && !is_dir ==> plan == OutputPlan::Refuse(Fatal::OutputNotADirectory),
{
    if exists && is_dir {
        OutputPlan::Use
    } else if !exists {
        OutputPlan::Create
    } else {
        OutputPlan::Refuse(Fatal::OutputNotADirectory)
    }
}

/// Where the server listens and where it puts what it receives.
#[derive(Debug)]
pub struct TrsferServerConfig {
    pub output_path: String,
    pub ip: String,
    pub port: u16,
    pub allow_port_fallback: bool,
}

impl TrsferServerConfig {
    /// The configuration for what was asked on the command line. A port that
    /// was asked for is taken as it is or not at all; the default port may
    /// give way to the next one.
    pub fn new(output_path: Option<String>, ip: Option<String>, port: Option<u16>) -> (config: Self)
        ensures
            config.output_path@ == match output_path {
                Some(path) => path@,
                None => DEFAULT_OUTPUT_PATH@,
            },
            config.ip@ == match ip {
                Some(ip) => ip@,
                None => DEFAULT_IP_ADDRESS@,
            },
            config.port == match port {
                Some(port) => port,
                None => DEFAULT_PORT,
            },
            config.allow_port_fallback == port is None,
    {
        let output_path = match output_path {
            Some(path) => path,
            None => DEFAULT_OUTPUT_PATH.to_owned(),
        };
        let ip = match ip {
            Some(ip) => ip,
            None => DEFAULT_IP_ADDRESS.to_owned(),
        };
        match port {
            Some(port) => TrsferServerConfig { output_path, ip, port, allow_port_fallback: false },
            None => TrsferServerConfig {
                output_path,
                ip,
                port: DEFAULT_PORT,
                allow_port_fallback: true,
            },
        }
    }

    /// Moves on to the next port after the current one turned out to be in
    /// use. Where falling back is not allowed, or no port is left, nothing
    /// changes and the reason to give up is returned.
    pub fn next_port(&mut self) -> (r: Result<(), Fatal>)
        ensures
            final(self).output_path == old(self).output_path,
            final(self).ip == old(self).ip,
            final(self).allow_port_fallback == old(self).allow_port_fallback,
            old(self).allow_port_fallback && old(self).port < u16::MAX ==> r is Ok
                && final(self).port == old(self).port + 1,
            !old(self).allow_port_fallback ==> r == Err::<(), Fatal>(Fatal::PortInUse),
            old(self).allow_port_fallback && old(self).port == u16::MAX ==> r == Err::<(), Fatal>(
                Fatal::NoAvailablePorts,
            ),
            r is Err ==> final(self).port == old(self).port,
    {
        if !self.allow_port_fallback {
            return Err(Fatal::PortInUse);
        }
        match self.port.checked_add(1) {
            Some(next_port) => {
                self.port = next_port;
                Ok(())
            },
            None => Err(Fatal::NoAvailablePorts),
        }
    }
}

} // verus!
