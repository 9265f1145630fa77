//! The web service front: where it listens and how it names itself.
use vstd::prelude::*;
use vstd::string::StringExecFns;
use crate::text::{i64_to_string, signed_decimal, str_is};

verus! {

/// A web service on a host and port.
pub struct IronWebService {
    pub host: String,
    pub port: i32,
}

impl IronWebService {
    /// A service with no host and port 0.
    pub fn new() -> (s: IronWebService)
        ensures
            s.host@ == Seq::<char>::empty(),
            s.port == 0,
    {
        IronWebService { host: String::new(), port: 0 }
    }

    /// Sets the port.
    pub fn port(&mut self, port: i32) -> (r: &mut IronWebService)
        ensures
            r.port == port,
            r.host@ == old(self).host@,
            *final(self) == *final(r),
    {
        self.port = port;
        self
    }

    /// Sets the host.
    pub fn host(&mut self, host: String) -> (r: &mut IronWebService)
        ensures
            r.host@ == host@,
            r.port == old(self).port,
            *final(self) == *final(r),
    {
        self.host = host;
        self
    }

    /// "Iron WebService running at port " and the port.
    pub fn signature(&self) -> (s: String)
        ensures
            s@ == "Iron WebService running at port "@ + signed_decimal(self.port as int),
    {
        let mut s = "Iron WebService running at port ".to_owned();
        let p = i64_to_string(self.port as i64);
        s.append(p.as_str());
        s
    }
}

/// The web services that can be chosen by name.
#[derive(Debug, Clone, Copy, PartialEq, Eq, Structural)]
pub enum ServiceKind {
    Iron,
}

/// The service called `name` ("iron"), if any.
pub fn create_service_by_name(name: &str) -> (r: Option<ServiceKind>)
    ensures
        name@ == "iron"@ ==> r == Some(ServiceKind::Iron),
        name@ != "iron"@ ==> r is None,
{
    if str_is(name, "iron") {
        Some(ServiceKind::Iron)
    } else {
        None
    }
}

/// A web service front.
pub trait Service {
    fn port(&mut self, port: i32) -> &mut Self;
    fn host(&mut self, host: String) -> &mut Self;
    fn init(&self) -> bool;
    fn signature(&self) -> String;
}

} // verus!
