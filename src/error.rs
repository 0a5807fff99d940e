//! Error types of the host command-line program and of its task core.
use vstd::prelude::*;

verus! {

/// Errors of the host command-line program. Where an error was caused by
/// another one, `source` holds that cause's message.
#[derive(Debug)]
pub enum CliError {
    TaskNotFound(u32),
    Config { message: String, source: Option<String> },
    Io { context: String, source: String },
    Parse { message: String, source: Option<String> },
    Ipc { message: String, source: Option<String> },
    Daemon { message: String, source: Option<String> },
    Plugin { message: String, source: Option<String> },
    Validation { field: String, message: String },
    Storage { message: String, source: Option<String> },
}

impl CliError {
    /// A configuration error with a message.
    pub fn config(message: String) -> (r: CliError)
        ensures
            r matches CliError::Config { message: m, source: s } && m@ == message@ && s is None,
    {
        CliError::Config { message, source: None }
    }

    /// A configuration error caused by another error, whose message is `source`.
    pub fn config_with_source(message: String, source: String) -> (r: CliError)
        ensures
            r matches CliError::Config { message: m, source: Some(s) } && m@ == message@ && s@
                == source@,
    {
        CliError::Config { message, source: Some(source) }
    }
    /// A parse error with a message.
    pub fn parse(message: String) -> (r: CliError)
        ensures
            r matches CliError::Parse { message: m, source: s } && m@ == message@ && s is None,
    {
        CliError::Parse { message, source: None }
    }

    /// A parse error caused by another error, whose message is `source`.
    pub fn parse_with_source(message: String, source: String) -> (r: CliError)
        ensures
            r matches CliError::Parse { message: m, source: Some(s) } && m@ == message@ && s@
                == source@,
    {
        CliError::Parse { message, source: Some(source) }
    }
    /// A IPC error with a message.
    pub fn ipc(message: String) -> (r: CliError)
        ensures
            r matches CliError::Ipc { message: m, source: s } && m@ == message@ && s is None,
    {
        CliError::Ipc { message, source: None }
    }

    /// A IPC error caused by another error, whose message is `source`.
    pub fn ipc_with_source(message: String, source: String) -> (r: CliError)
        ensures
            r matches CliError::Ipc { message: m, source: Some(s) } && m@ == message@ && s@
                == source@,
    {
        CliError::Ipc { message, source: Some(source) }
    }
    /// A daemon error with a message.
    pub fn daemon(message: String) -> (r: CliError)
        ensures
            r matches CliError::Daemon { message: m, source: s } && m@ == message@ && s is None,
    {
        CliError::Daemon { message, source: None }
    }

    /// A daemon error caused by another error, whose message is `source`.
    pub fn daemon_with_source(message: String, source: String) -> (r: CliError)
        ensures
            r matches CliError::Daemon { message: m, source: Some(s) } && m@ == message@ && s@
                == source@,
    {
        CliError::Daemon { message, source: Some(source) }
    }
    /// A plugin error with a message.
    pub fn plugin(message: String) -> (r: CliError)
        ensures
            r matches CliError::Plugin { message: m, source: s } && m@ == message@ && s is None,
    {
        CliError::Plugin { message, source: None }
    }

    /// A plugin error caused by another error, whose message is `source`.
    pub fn plugin_with_source(message: String, source: String) -> (r: CliError)
        ensures
            r matches CliError::Plugin { message: m, source: Some(s) } && m@ == message@ && s@
                == source@,
    {
        CliError::Plugin { message, source: Some(source) }
    }
    /// A storage error with a message.
    pub fn storage(message: String) -> (r: CliError)
        ensures
            r matches CliError::Storage { message: m, source: s } && m@ == message@ && s is None,
    {
        CliError::Storage { message, source: None }
    }

    /// A storage error caused by another error, whose message is `source`.
    pub fn storage_with_source(message: String, source: String) -> (r: CliError)
        ensures
            r matches CliError::Storage { message: m, source: Some(s) } && m@ == message@ && s@
                == source@,
    {
        CliError::Storage { message, source: Some(source) }
    }
    /// A validation error on `field`.
    pub fn validation(field: String, message: String) -> (r: CliError)
        ensures
            r matches CliError::Validation { field: f, message: m } && f@ == field@ && m@
                == message@,
    {
        CliError::Validation { field, message }
    }

    /// An I/O error, with what was being done and the I/O error's message.
    pub fn io(context: String, source: String) -> (r: CliError)
        ensures
            r matches CliError::Io { context: c, source: s } && c@ == context@ && s@ == source@,
    {
        CliError::Io { context, source }
    }

    /// The same error, seen from the command-line program.
    pub fn from_core(err: CoreError) -> (r: CliError)
        ensures
            match err {
                CoreError::TaskNotFound(id) => r == CliError::TaskNotFound(id),
                CoreError::Parse { message, source } => r == (CliError::Parse { message, source }),
                CoreError::Validation { field, message } => r == (CliError::Validation {
                    field,
                    message,
                }),
            },
    {
        match err {
            CoreError::TaskNotFound(id) => CliError::TaskNotFound(id),
            CoreError::Parse { message, source } => CliError::Parse { message, source },
            CoreError::Validation { field, message } => CliError::Validation { field, message },
        }
    }
}

/// Errors of the first, single-binary host program. Where an error was caused by
/// another one, `source` holds that cause's message.
#[derive(Debug)]
pub enum TaigaError {
    TaskNotFound(u32),
    Config { message: String, source: Option<String> },
    Io { context: String, source: String },
    Parse { message: String, source: Option<String> },
    Ipc { message: String, source: Option<String> },
    Daemon { message: String, source: Option<String> },
    Plugin { message: String, source: Option<String> },
    Validation { field: String, message: String },
}

impl TaigaError {
    /// A configuration error with a message.
    pub fn config(message: String) -> (r: TaigaError)
        ensures
            r matches TaigaError::Config { message: m, source: s } && m@ == message@ && s is None,
    {
        TaigaError::Config { message, source: None }
    }

    /// A configuration error caused by another error, whose message is `source`.
    pub fn config_with_source(message: String, source: String) -> (r: TaigaError)
        ensures
            r matches TaigaError::Config { message: m, source: Some(s) } && m@ == message@ && s@
                == source@,
    {
        TaigaError::Config { message, source: Some(source) }
    }
    /// A parse error with a message.
    pub fn parse(message: String) -> (r: TaigaError)
        ensures
            r matches TaigaError::Parse { message: m, source: s } && m@ == message@ && s is None,
    {
        TaigaError::Parse { message, source: None }
    }

    /// A parse error caused by another error, whose message is `source`.
    pub fn parse_with_source(message: String, source: String) -> (r: TaigaError)
        ensures
            r matches TaigaError::Parse { message: m, source: Some(s) } && m@ == message@ && s@
                == source@,
    {
        TaigaError::Parse { message, source: Some(source) }
    }
    /// A IPC error with a message.
    pub fn ipc(message: String) -> (r: TaigaError)
        ensures
            r matches TaigaError::Ipc { message: m, source: s } && m@ == message@ && s is None,
    {
        TaigaError::Ipc { message, source: None }
    }

    /// A IPC error caused by another error, whose message is `source`.
    pub fn ipc_with_source(message: String, source: String) -> (r: TaigaError)
        ensures
            r matches TaigaError::Ipc { message: m, source: Some(s) } && m@ == message@ && s@
                == source@,
    {
        TaigaError::Ipc { message, source: Some(source) }
    }
    /// A daemon error with a message.
    pub fn daemon(message: String) -> (r: TaigaError)
        ensures
            r matches TaigaError::Daemon { message: m, source: s } && m@ == message@ && s is None,
    {
        TaigaError::Daemon { message, source: None }
    }

    /// A daemon error caused by another error, whose message is `source`.
    pub fn daemon_with_source(message: String, source: String) -> (r: TaigaError)
        ensures
            r matches TaigaError::Daemon { message: m, source: Some(s) } && m@ == message@ && s@
                == source@,
    {
        TaigaError::Daemon { message, source: Some(source) }
    }
    /// A plugin error with a message.
    pub fn plugin(message: String) -> (r: TaigaError)
        ensures
            r matches TaigaError::Plugin { message: m, source: s } && m@ == message@ && s is None,
    {
        TaigaError::Plugin { message, source: None }
    }

    /// A plugin error caused by another error, whose message is `source`.
    pub fn plugin_with_source(message: String, source: String) -> (r: TaigaError)
        ensures
            r matches TaigaError::Plugin { message: m, source: Some(s) } && m@ == message@ && s@
                == source@,
    {
        TaigaError::Plugin { message, source: Some(source) }
    }
    /// A validation error on `field`.
    pub fn validation(field: String, message: String) -> (r: TaigaError)
        ensures
            r matches TaigaError::Validation { field: f, message: m } && f@ == field@ && m@
                == message@,
    {
        TaigaError::Validation { field, message }
    }

    /// An I/O error, with what was being done and the I/O error's message.
    pub fn io(context: String, source: String) -> (r: TaigaError)
        ensures
            r matches TaigaError::Io { context: c, source: s } && c@ == context@ && s@ == source@,
    {
        TaigaError::Io { context, source }
    }
}

/// Errors of the task core.
#[derive(Debug)]
pub enum CoreError {
    TaskNotFound(u32),
    Parse { message: String, source: Option<String> },
    Validation { field: String, message: String },
}

impl CoreError {
    /// A parse error with a message.
    pub fn parse(message: String) -> (r: CoreError)
        ensures
            r matches CoreError::Parse { message: m, source: s } && m@ == message@ && s is None,
    {
        CoreError::Parse { message, source: None }
    }

    /// A parse error caused by another error, whose message is `source`.
    pub fn parse_with_source(message: String, source: String) -> (r: CoreError)
        ensures
            r matches CoreError::Parse { message: m, source: Some(s) } && m@ == message@ && s@
                == source@,
    {
        CoreError::Parse { message, source: Some(source) }
    }

    /// A validation error on `field`.
    pub fn validation(field: String, message: String) -> (r: CoreError)
        ensures
            r matches CoreError::Validation { field: f, message: m } && f@ == field@ && m@
                == message@,
    {
        CoreError::Validation { field, message }
    }
}

} // verus!
