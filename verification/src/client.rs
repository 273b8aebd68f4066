use vstd::prelude::*;

use crate::errors::ILertResult;

verus! {

/// The transport client's configuration: base host, API path prefix, the
/// two authentication credential forms, and the request timeout. The HTTP
/// transport built from this configuration lives outside the library; every
/// request derives its URL and headers from these fields alone.
#[derive(Debug, Clone)]
pub struct ILert {
    pub host: String,
    pub api_ep: String,
    pub api_token: Option<String>,
    pub auth_user: Option<String>,
    pub auth_psw: Option<String>,
    pub timeout_sec: u64,
}

impl ILert {
    /// A client against the default host with the default timeout.
    ///
    /// Building the configuration itself cannot fail; the fallible result
    /// shape is kept so that transport construction failures have a place
    /// to surface.
    pub fn new() -> (r: ILertResult<ILert>)
        ensures
            r matches Ok(c) ==> {
                &&& c.host@ == "https://api.ilert.com"@
                &&& c.api_ep@ == "/api"@
                &&& c.api_token is None
                &&& c.auth_user is None
                &&& c.auth_psw is None
                &&& c.timeout_sec == 25
            },
            r is Ok,
    {
        Ok(
            ILert {
                host: "https://api.ilert.com".to_owned(),
                api_ep: "/api".to_owned(),
                api_token: None,
                auth_user: None,
                auth_psw: None,
                timeout_sec: 25,
            },
        )
    }

    /// A client with an optional host override and an optional timeout in
    /// seconds (25 when unset).
    pub fn new_with_opts(host: Option<&str>, timeout_sec: Option<u64>) -> (r: ILertResult<ILert>)
        ensures
            r matches Ok(c) ==> {
                &&& c.host@ == (match host {
                    Some(h) => h@,
                    None => "https://api.ilert.com"@,
                })
                &&& c.api_ep@ == "/api"@
                &&& c.api_token is None
                &&& c.auth_user is None
                &&& c.auth_psw is None
                &&& c.timeout_sec == (match timeout_sec {
                    Some(t) => t,
                    None => 25,
                })
            },
            r is Ok,
    {
        let host_value: String = match host {
            Some(h) => h.to_owned(),
            None => "https://api.ilert.com".to_owned(),
        };
        let timeout_value: u64 = match timeout_sec {
            Some(t) => t,
            None => 25,
        };
        Ok(
            ILert {
                host: host_value,
                api_ep: "/api".to_owned(),
                api_token: None,
                auth_user: None,
                auth_psw: None,
                timeout_sec: timeout_value,
            },
        )
    }

    /// Set the API token. A later preparation step turns it into a
    /// `Bearer` authorization header.
    pub fn auth_via_token(&mut self, api_token: &str) -> (r: ILertResult<()>)
        ensures
            r is Ok,
            final(self).api_token matches Some(t) && t@ == api_token@,
            final(self).host == old(self).host,
            final(self).api_ep == old(self).api_ep,
            final(self).auth_user == old(self).auth_user,
            final(self).auth_psw == old(self).auth_psw,
            final(self).timeout_sec == old(self).timeout_sec,
    {
        self.api_token = Some(api_token.to_owned());
        Ok(())
    }

    /// Set the basic-auth credentials. A later preparation step turns them
    /// into a `Basic` authorization header.
    pub fn auth_via_user(&mut self, auth_user: &str, auth_psw: &str) -> (r: ILertResult<()>)
        ensures
            r is Ok,
            final(self).auth_user matches Some(u) && u@ == auth_user@,
            final(self).auth_psw matches Some(p) && p@ == auth_psw@,
            final(self).host == old(self).host,
            final(self).api_ep == old(self).api_ep,
            final(self).api_token == old(self).api_token,
            final(self).timeout_sec == old(self).timeout_sec,
    {
        self.auth_user = Some(auth_user.to_owned());
        self.auth_psw = Some(auth_psw.to_owned());
        Ok(())
    }

    /// The full URL for a resource path: host, then API prefix, then path.
    pub fn build_url(&self, path: &str) -> (r: String)
        ensures
            r@ == self.host@ + self.api_ep@ + path@,
    {
        let mut url = self.host.clone();
        url.append(self.api_ep.as_str());
        url.append(path);
        url
    }

    /// The default headers every request carries; the transport is
    /// configured with exactly these.
    pub fn default_headers() -> (r: Vec<(String, String)>)
        ensures
            r@.len() == 3,
            r@[0].0@ == "User-Agent"@ && r@[0].1@ == "ilert-rust/3.1.0"@,
            r@[1].0@ == "Accept"@ && r@[1].1@ == "application/json"@,
            r@[2].0@ == "Content-Type"@ && r@[2].1@ == "application/json"@,
    {
        let mut headers: Vec<(String, String)> = Vec::new();
        headers.push(("User-Agent".to_owned(), "ilert-rust/3.1.0".to_owned()));
        headers.push(("Accept".to_owned(), "application/json".to_owned()));
        headers.push(("Content-Type".to_owned(), "application/json".to_owned()));
        headers
    }
}

} // verus!
