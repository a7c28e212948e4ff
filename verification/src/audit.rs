//! Record shapes of the endpoint's audit stream: the decoded notification
//! record the change tailer consumes, and the request body that registers an
//! audit device.
use vstd::prelude::*;

verus! {

/// One decoded notification-feed record, as the source endpoint's audit
/// device emits it.
#[derive(Debug, Clone)]
pub struct AuditLog {
    pub time: String,
    pub log_type: String,
    pub request: Request,
}

/// The request half of an audit record: what operation was performed, on
/// which kind of mount, at which native path.
#[derive(Debug, Clone)]
pub struct Request {
    pub operation: String,
    pub mount_type: String,
    pub path: String,
}

/// Body of a request that registers a socket audit device on the endpoint.
#[derive(Debug, Clone)]
pub struct CreateAuditDeviceRequest {
    pub audit_device_type: String,
    pub options: AuditDeviceOptions,
}

/// Options of a socket audit device: where to deliver records and over what
/// kind of socket.
#[derive(Debug, Clone)]
pub struct AuditDeviceOptions {
    pub address: String,
    pub socket_type: String,
}

} // verus!
