use vstd::prelude::*;
use vstd::string::StringExecFns;
use crate::session::WatchTarget;

verus! {

/// How often, in milliseconds, the polling backend looks at the file.
pub const POLL_INTERVAL_MS: u64 = 1000;

/// How often, in milliseconds, an idle stream sends a keep-alive frame.
pub const HEARTBEAT_INTERVAL_MS: u64 = 1000;

/// The two ways of learning that the watched file changed.
#[derive(Clone, Copy, PartialEq, Eq, Structural, Debug)]
pub enum WatchBackend {
    /// Notifications from the operating system.
    Notify,
    /// Looking at the file every `POLL_INTERVAL_MS`.
    Poll,
}

/// The settings of a preview server.
pub struct Cli {
    /// The file to preview.
    pub filename: String,
    /// The local address to listen on.
    pub address: String,
    /// A stylesheet to link from the page.
    pub stylesheet: Option<String>,
    /// Show the page in dark mode.
    pub dark: bool,
    /// How verbose the log is: 0 for info, 1 for debug, more for trace.
    pub debug: u8,
    /// Use operating-system notifications rather than polling.
    pub inotify: bool,
    /// Let raw HTML in the markdown through. Only for trusted files.
    pub html: bool,
}

/// The log level a verbosity count stands for.
pub open spec fn log_level(debug: u8) -> Seq<char> {
    if debug == 0 {
        "info"@
    } else if debug == 1 {
        "debug"@
    } else {
        "trace"@
    }
}

impl Cli {
    /// The name of the log level these settings ask for.
    pub fn logging(&self) -> (r: String)
        ensures
            r@ == log_level(self.debug),
    {
        match self.debug {
            0 => String::from_str("info"),
            1 => String::from_str("debug"),
            _ => String::from_str("trace"),
        }
    }

    /// The watch backend these settings ask for.
    pub fn backend(&self) -> (b: WatchBackend)
        ensures
            b == (if self.inotify { WatchBackend::Notify } else { WatchBackend::Poll }),
    {
        if self.inotify {
            WatchBackend::Notify
        } else {
            WatchBackend::Poll
        }
    }

    /// The same settings, for another file.
    pub fn for_file(self, filename: String) -> (r: Cli)
        ensures
            r.filename == filename,
            r.address == self.address,
            r.stylesheet == self.stylesheet,
            r.dark == self.dark,
            r.debug == self.debug,
            r.inotify == self.inotify,
            r.html == self.html,
    {
        Cli { filename, ..self }
    }

    /// What a watch session on the configured file is to observe.
    pub fn watch_target(&self) -> (t: WatchTarget)
        ensures
            t.path == self.filename,
            t.trusted == self.html,
    {
        WatchTarget { path: self.filename.clone(), trusted: self.html }
    }
}

} // verus!
