use vstd::prelude::*;
use vstd::string::StringExecFns;
use crate::job::Job;

verus! {

/// Why a session could not be opened.
#[derive(Clone, Copy, Debug, PartialEq, Eq, Structural)]
pub enum ConnectError {
    /// The host could not be reached.
    Network,
    /// The protocol handshake failed.
    HandshakeFailed,
    /// The host refused the credential.
    AuthRejected,
}

/// Why a command could not be run on an open session.
#[derive(Clone, Copy, Debug, PartialEq, Eq, Structural)]
pub enum ExecError {
    /// `execute` was called on a session that holds no live connection.
    NotConnected,
    /// The host refused to open a command channel.
    ChannelOpenFailed,
    /// The host refused the command.
    CommandRejected,
    /// Reading the output or closing the channel failed.
    IoError,
}

/// The text that reports a connection failure.
pub open spec fn connect_error_text(e: ConnectError) -> Seq<char> {
    match e {
        ConnectError::Network => "connect failed: host unreachable"@,
        ConnectError::HandshakeFailed => "connect failed: handshake rejected"@,
        ConnectError::AuthRejected => "connect failed: authentication rejected"@,
    }
}

/// The text that reports a failure to run a command.
pub open spec fn exec_error_text(e: ExecError) -> Seq<char> {
    match e {
        ExecError::NotConnected => "exec failed: session not connected"@,
        ExecError::ChannelOpenFailed => "exec failed: channel could not be opened"@,
        ExecError::CommandRejected => "exec failed: command rejected"@,
        ExecError::IoError => "exec failed: output could not be read"@,
    }
}

impl ConnectError {
    /// A line of text that says what went wrong.
    pub fn message(&self) -> (r: String)
        ensures
            r@ == connect_error_text(*self),
    {
        match self {
            ConnectError::Network => String::from_str("connect failed: host unreachable"),
            ConnectError::HandshakeFailed => String::from_str("connect failed: handshake rejected"),
            ConnectError::AuthRejected => String::from_str(
                "connect failed: authentication rejected",
            ),
        }
    }
}

impl ExecError {
    /// A line of text that says what went wrong.
    pub fn message(&self) -> (r: String)
        ensures
            r@ == exec_error_text(*self),
    {
        match self {
            ExecError::NotConnected => String::from_str("exec failed: session not connected"),
            ExecError::ChannelOpenFailed => String::from_str(
                "exec failed: channel could not be opened",
            ),
            ExecError::CommandRejected => String::from_str("exec failed: command rejected"),
            ExecError::IoError => String::from_str("exec failed: output could not be read"),
        }
    }
}

/// Where a session stands: not yet connected, connected over a handle, or
/// failed for good.
pub enum SessionState<C> {
    /// No connection has been tried yet.
    Idle,
    /// Connected; the handle of the open connection.
    Live(C),
    /// The connection attempt failed, for this reason.
    Failed(ConnectError),
}

/// One connection to one host, used for one command. `C` is the handle of an
/// open connection, supplied by whoever opens it.
pub struct RemoteSession<C> {
    host: String,
    state: SessionState<C>,
}

impl<C> RemoteSession<C> {
    /// The host that the session is for.
    pub closed spec fn host_value(&self) -> String {
        self.host
    }

    /// Where the session stands.
    pub closed spec fn state_view(&self) -> SessionState<C> {
        self.state
    }

    /// A session for `host` that has not connected yet.
    pub fn new(host: String) -> (r: RemoteSession<C>)
        ensures
            r.host_value() == host,
            r.state_view() is Idle,
    {
        RemoteSession { host, state: SessionState::Idle }
    }

    /// The host that the session is for.
    pub fn host(&self) -> (r: &String)
        ensures
            *r == self.host_value(),
    {
        &self.host
    }

    /// Whether the session holds a live connection.
    pub fn is_connected(&self) -> (r: bool)
        ensures
            r == (self.state_view() is Live),
    {
        match self.state {
            SessionState::Live(_) => true,
            _ => false,
        }
    }

    /// Connects through `open`, which is handed the host and either opens a
    /// connection or says why not. Only an idle session calls `open`: a failed
    /// session stays failed and reports its first error again, and a live one
    /// keeps its connection.
    pub fn connect<F>(&mut self, open: F) -> (r: Result<(), ConnectError>)
        where
            F: FnOnce(&String) -> Result<C, ConnectError>,
        requires
            old(self).state_view() is Idle ==> open.requires((&old(self).host_value(),)),
        ensures
            final(self).host_value() == old(self).host_value(),
            match old(self).state_view() {
                SessionState::Idle => exists|o: Result<C, ConnectError>|
                    {
                        &&& #[trigger] open.ensures((&old(self).host_value(),), o)
                        &&& match o {
                            Ok(c) => r is Ok && final(self).state_view() == SessionState::Live(c),
                            Err(e) => r == Err::<(), ConnectError>(e) && final(self).state_view()
                                == SessionState::<C>::Failed(e),
                        }
                    },
                SessionState::Live(c) => r is Ok && final(self).state_view() == old(
                    self,
                ).state_view(),
                SessionState::Failed(e) => r == Err::<(), ConnectError>(e)
                    && final(self).state_view() == old(self).state_view(),
            },
    {
        match self.state {
            SessionState::Idle => {
                match open(&self.host) {
                    Ok(c) => {
                        self.state = SessionState::Live(c);
                        Ok(())
                    },
                    Err(e) => {
                        self.state = SessionState::Failed(e);
                        Err(e)
                    },
                }
            },
            SessionState::Live(_) => Ok(()),
            SessionState::Failed(e) => Err(e),
        }
    }

    /// Runs `job` through `run` on the live connection. A session that holds
    /// none answers `NotConnected` and calls nothing.
    pub fn execute<F>(&self, job: &Job, run: F) -> (r: Result<String, ExecError>)
        where
            F: FnOnce(&C, &Job) -> Result<String, ExecError>,
        requires
            match self.state_view() {
                SessionState::Live(c) => run.requires((&c, job)),
                _ => true,
            },
        ensures
            match self.state_view() {
                SessionState::Live(c) => run.ensures((&c, job), r),
                _ => r == Err::<String, ExecError>(ExecError::NotConnected),
            },
    {
        match &self.state {
            SessionState::Live(c) => run(c, job),
            _ => Err(ExecError::NotConnected),
        }
    }
}

} // verus!
