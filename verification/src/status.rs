//! The record of the managed server's run state.

use crate::document::{boolean_at, read_boolean, read_text, read_unsigned, text_at, unsigned_at};
use crate::text::text_view;
use vstd::prelude::*;

verus! {

/// Member of a status answer that tells whether the server runs.
pub const RUNNING_KEY: &'static str = "running";

/// Member that holds the port.
pub const PORT_KEY: &'static str = "port";

/// Member that holds the process id.
pub const PID_KEY: &'static str = "pid";

/// Member that holds the URL.
pub const URL_KEY: &'static str = "url";

/// Member that holds the uptime in seconds.
pub const UPTIME_KEY: &'static str = "uptime";

/// Last-known run state of the managed Jupyter server.
#[derive(Debug, PartialEq, Eq)]
pub struct JupyterStatus {
    pub running: bool,
    pub port: Option<u16>,
    pub pid: Option<u32>,
    pub url: Option<String>,
    pub uptime: u64,
}

/// Mathematical model of a [`JupyterStatus`].
pub ghost struct StatusView {
    pub running: bool,
    pub port: Option<u16>,
    pub pid: Option<u32>,
    pub url: Option<Seq<char>>,
    pub uptime: u64,
}

impl StatusView {
    /// The record of a server that is not running.
    pub open spec fn stopped() -> StatusView {
        StatusView { running: false, port: None, pid: None, url: None, uptime: 0 }
    }

    /// Port, process id and URL are present only while the server runs, and
    /// a stopped server has no uptime.
    pub open spec fn well_formed(self) -> bool {
        !self.running ==> self == StatusView::stopped()
    }
}

impl View for JupyterStatus {
    type V = StatusView;

    open spec fn view(&self) -> StatusView {
        StatusView {
            running: self.running,
            port: self.port,
            pid: self.pid,
            url: match self.url {
                Some(u) => Some(u@),
                None => None,
            },
            uptime: self.uptime,
        }
    }
}

impl JupyterStatus {
    /// Whether the record satisfies its invariant.
    pub open spec fn well_formed(&self) -> bool {
        self@.well_formed()
    }

    /// Tests the invariant of the record.
    pub fn is_well_formed(&self) -> (ok: bool)
        ensures
            ok == self.well_formed(),
    {
        self.running || (self.port.is_none() && self.pid.is_none() && self.url.is_none()
            && self.uptime == 0)
    }
}

impl Default for JupyterStatus {
    /// The record of a server that is not running.
    fn default() -> (status: JupyterStatus)
        ensures
            status@ == StatusView::stopped(),
    {
        JupyterStatus { running: false, port: None, pid: None, url: None, uptime: 0 }
    }
}

impl Clone for JupyterStatus {
    fn clone(&self) -> (copy: JupyterStatus)
        ensures
            copy@ == self@,
    {
        let url = match &self.url {
            Some(u) => Some(u.clone()),
            None => None,
        };
        JupyterStatus {
            running: self.running,
            port: self.port,
            pid: self.pid,
            url,
            uptime: self.uptime,
        }
    }
}

/// The run state that the members of a status answer give.
///
/// There is one where `running` is a truth value. A server that does not
/// run has the stopped record, whatever the other members hold. Of a
/// running server, port and process id are kept where they fit their
/// fields, the URL where there is one, and the uptime where there is one,
/// else 0.
pub open spec fn status_of_members(
    running: Option<bool>,
    port: Option<u64>,
    pid: Option<u64>,
    url: Option<Seq<char>>,
    uptime: Option<u64>,
) -> Option<StatusView> {
    match running {
        None => None,
        Some(false) => Some(StatusView::stopped()),
        Some(true) => Some(
            StatusView {
                running: true,
                port: match port {
                    Some(port) if port <= u16::MAX => Some(port as u16),
                    _ => None,
                },
                pid: match pid {
                    Some(pid) if pid <= u32::MAX => Some(pid as u32),
                    _ => None,
                },
                url,
                uptime: match uptime {
                    Some(uptime) => uptime,
                    None => 0,
                },
            },
        ),
    }
}

/// The run state that a document reports: the one that its members
/// `running`, `port`, `pid`, `url` and `uptime` give, each read as a truth
/// value, an unsigned integer or a text where it is one.
pub open spec fn reported_status(doc: serde_json::Value) -> Option<StatusView> {
    status_of_members(
        boolean_at(doc, RUNNING_KEY@),
        unsigned_at(doc, PORT_KEY@),
        unsigned_at(doc, PID_KEY@),
        text_at(doc, URL_KEY@),
        unsigned_at(doc, UPTIME_KEY@),
    )
}

/// Model of an optional record.
pub open spec fn status_view(status: Option<JupyterStatus>) -> Option<StatusView> {
    match status {
        Some(s) => Some(s@),
        None => None,
    }
}

impl JupyterStatus {
    /// The run state that the members of a status answer give, if they
    /// give one.
    pub fn from_members(
        running: Option<bool>,
        port: Option<u64>,
        pid: Option<u64>,
        url: Option<String>,
        uptime: Option<u64>,
    ) -> (status: Option<JupyterStatus>)
        ensures
            status_view(status) == status_of_members(running, port, pid, text_view(url), uptime),
            status matches Some(s) ==> s.well_formed(),
    {
        match running {
            None => None,
            Some(false) => Some(JupyterStatus::default()),
            Some(true) => {
                let port = match port {
                    Some(port) if port <= 0xFFFF => Some(port as u16),
                    _ => None,
                };
                let pid = match pid {
                    Some(pid) if pid <= 0xFFFF_FFFF => Some(pid as u32),
                    _ => None,
                };
                let uptime = match uptime {
                    Some(uptime) => uptime,
                    None => 0,
                };
                Some(JupyterStatus { running: true, port, pid, url, uptime })
            },
        }
    }

    /// Reads the run state that `doc` reports, if it reports one.
    pub fn from_document(doc: &serde_json::Value) -> (status: Option<JupyterStatus>)
        ensures
            status_view(status) == reported_status(*doc),
            status matches Some(s) ==> s.well_formed(),
    {
        JupyterStatus::from_members(
            read_boolean(doc, RUNNING_KEY),
            read_unsigned(doc, PORT_KEY),
            read_unsigned(doc, PID_KEY),
            read_text(doc, URL_KEY),
            read_unsigned(doc, UPTIME_KEY),
        )
    }
}

} // verus!
