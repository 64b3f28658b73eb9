//! What can go wrong, and the kind of each failure.

use vstd::prelude::*;

verus! {

/// The kinds of failure that the runtime tells apart.
#[derive(Clone, Copy, Debug, PartialEq, Eq, Structural)]
pub enum ErrorKind {
    /// An image, a container or a pid file is absent.
    NotFound,
    /// A container of that name is already there.
    AlreadyExists,
    /// A file system operation or a system call failed.
    IOError,
    /// The `ip` utility ended with a failure.
    NetworkToolError,
    /// The registry answered with something that cannot be used.
    RegistryError,
    /// A configuration or a command could not be read.
    ParseError,
    /// A client asked the daemon to stop.
    DaemonExit,
}

/// A failure of one of the library's decisions.
#[derive(Clone, Copy, Debug, PartialEq, Eq, Structural)]
pub enum Failure {
    /// No image of that id is in the store.
    ImageNotFound,
    /// No container of that name is in the store.
    ContainerNotFound,
    /// The container has no pid file: it is not running.
    NotRunning,
    /// The image is in the store already.
    ImageExists,
    /// A container of that name is in the store already.
    ContainerExists,
    /// The container has a pid file: it is running already.
    AlreadyRunning,
    /// A reply of the registry is no JSON text.
    MalformedJson,
    /// The reply to the token request holds no string `token`.
    TokenMissing,
    /// The manifest holds no array `fsLayers`.
    LayersMissing,
    /// A layer of the manifest holds no string `blobSum`.
    BlobSumMissing,
    /// A pattern of the command grammar was not accepted.
    BadPattern,
    /// A text is no command.
    BadCommand,
    /// A text is no subcommand.
    BadSubcommand,
    /// A text is no action of its subcommand.
    BadAction,
    /// The content of a pid file is no process id.
    BadPid,
    /// A variable of the environment is not written as a name, `=` and a value.
    BadEnvironment,
    /// A configuration breaks a rule of the runtime.
    BadSpec,
    /// A command names no subcommand.
    NoSubcommand,
    /// An operation of the system failed.
    System,
    /// The `ip` utility ended with a failure.
    NetworkTool,
    /// A client asked the daemon to stop.
    DaemonExit,
}

impl Failure {
    /// The kind of the failure.
    pub open spec fn spec_kind(self) -> ErrorKind {
        match self {
            Failure::ImageNotFound => ErrorKind::NotFound,
            Failure::ContainerNotFound => ErrorKind::NotFound,
            Failure::NotRunning => ErrorKind::NotFound,
            Failure::ImageExists => ErrorKind::AlreadyExists,
            Failure::ContainerExists => ErrorKind::AlreadyExists,
            Failure::AlreadyRunning => ErrorKind::AlreadyExists,
            Failure::MalformedJson => ErrorKind::RegistryError,
            Failure::TokenMissing => ErrorKind::RegistryError,
            Failure::LayersMissing => ErrorKind::RegistryError,
            Failure::BlobSumMissing => ErrorKind::RegistryError,
            Failure::BadPattern => ErrorKind::ParseError,
            Failure::BadCommand => ErrorKind::ParseError,
            Failure::BadSubcommand => ErrorKind::ParseError,
            Failure::BadAction => ErrorKind::ParseError,
            Failure::BadPid => ErrorKind::ParseError,
            Failure::BadEnvironment => ErrorKind::ParseError,
            Failure::BadSpec => ErrorKind::ParseError,
            Failure::NoSubcommand => ErrorKind::ParseError,
            Failure::System => ErrorKind::IOError,
            Failure::NetworkTool => ErrorKind::NetworkToolError,
            Failure::DaemonExit => ErrorKind::DaemonExit,
        }
    }

    /// The kind of the failure.
    #[verifier::when_used_as_spec(spec_kind)]
    pub fn kind(self) -> (r: ErrorKind)
        ensures
            r == self.spec_kind(),
    {
        match self {
            Failure::ImageNotFound => ErrorKind::NotFound,
            Failure::ContainerNotFound => ErrorKind::NotFound,
            Failure::NotRunning => ErrorKind::NotFound,
            Failure::ImageExists => ErrorKind::AlreadyExists,
            Failure::ContainerExists => ErrorKind::AlreadyExists,
            Failure::AlreadyRunning => ErrorKind::AlreadyExists,
            Failure::MalformedJson => ErrorKind::RegistryError,
            Failure::TokenMissing => ErrorKind::RegistryError,
            Failure::LayersMissing => ErrorKind::RegistryError,
            Failure::BlobSumMissing => ErrorKind::RegistryError,
            Failure::BadPattern => ErrorKind::ParseError,
            Failure::BadCommand => ErrorKind::ParseError,
            Failure::BadSubcommand => ErrorKind::ParseError,
            Failure::BadAction => ErrorKind::ParseError,
            Failure::BadPid => ErrorKind::ParseError,
            Failure::BadEnvironment => ErrorKind::ParseError,
            Failure::BadSpec => ErrorKind::ParseError,
            Failure::NoSubcommand => ErrorKind::ParseError,
            Failure::System => ErrorKind::IOError,
            Failure::NetworkTool => ErrorKind::NetworkToolError,
            Failure::DaemonExit => ErrorKind::DaemonExit,
        }
    }

    /// Whether the failure ends the operation with an error.
    pub open spec fn spec_is_fatal(self) -> bool {
        self.spec_kind() != ErrorKind::NotFound && self.spec_kind() != ErrorKind::AlreadyExists
            && self.spec_kind() != ErrorKind::NetworkToolError
    }

    /// Whether the failure ends the operation with an error. What is not
    /// there, what is there already and what the `ip` utility could not do
    /// is reported, and the operation goes on or ends well.
    #[verifier::when_used_as_spec(spec_is_fatal)]
    pub fn is_fatal(self) -> (r: bool)
        ensures
            r == self.spec_is_fatal(),
    {
        match self.kind() {
            ErrorKind::NotFound => false,
            ErrorKind::AlreadyExists => false,
            ErrorKind::NetworkToolError => false,
            _ => true,
        }
    }

    /// What the failure makes of the operation that met it: it ends with
    /// the failure where that is fatal, and ends well where the failure
    /// only says that nothing was to be done.
    pub fn settle(self) -> (r: Result<(), Failure>)
        ensures
            r == if self.spec_is_fatal() {
                Err::<(), Failure>(self)
            } else {
                Ok::<(), Failure>(())
            },
    {
        if self.is_fatal() {
            Err(self)
        } else {
            Ok(())
        }
    }

    /// The failure in words.
    pub fn message(self) -> (r: &'static str)
        ensures
            r@ == self.spec_message(),
    {
        match self {
            Failure::ImageNotFound => "image not found",
            Failure::ContainerNotFound => "container not found",
            Failure::NotRunning => "container isn't running or doesn't exist",
            Failure::ImageExists => "image exists",
            Failure::ContainerExists => "container exists",
            Failure::AlreadyRunning => "container already running",
            Failure::MalformedJson => "malformed json",
            Failure::TokenMissing => "token retrieval failed",
            Failure::LayersMissing => "filesystem layers retrieval failed",
            Failure::BlobSumMissing => "blobSum not found",
            Failure::BadPattern => "invalid pattern",
            Failure::BadCommand => "invalid command",
            Failure::BadSubcommand => "invalid subcommand",
            Failure::BadAction => "invalid action",
            Failure::BadPid => "invalid pid",
            Failure::BadEnvironment => "invalid environment variable",
            Failure::BadSpec => "invalid configuration",
            Failure::NoSubcommand => "unexpected arguments",
            Failure::System => "system operation failed",
            Failure::NetworkTool => "network tool failed",
            Failure::DaemonExit => "close daemon",
        }
    }

    /// The failure in words.
    pub open spec fn spec_message(self) -> Seq<char> {
        match self {
            Failure::ImageNotFound => "image not found"@,
            Failure::ContainerNotFound => "container not found"@,
            Failure::NotRunning => "container isn't running or doesn't exist"@,
            Failure::ImageExists => "image exists"@,
            Failure::ContainerExists => "container exists"@,
            Failure::AlreadyRunning => "container already running"@,
            Failure::MalformedJson => "malformed json"@,
            Failure::TokenMissing => "token retrieval failed"@,
            Failure::LayersMissing => "filesystem layers retrieval failed"@,
            Failure::BlobSumMissing => "blobSum not found"@,
            Failure::BadPattern => "invalid pattern"@,
            Failure::BadCommand => "invalid command"@,
            Failure::BadSubcommand => "invalid subcommand"@,
            Failure::BadAction => "invalid action"@,
            Failure::BadPid => "invalid pid"@,
            Failure::BadEnvironment => "invalid environment variable"@,
            Failure::BadSpec => "invalid configuration"@,
            Failure::NoSubcommand => "unexpected arguments"@,
            Failure::System => "system operation failed"@,
            Failure::NetworkTool => "network tool failed"@,
            Failure::DaemonExit => "close daemon"@,
        }
    }
}

} // verus!
