//! Choosing the HTTP client a request goes out through.
use vstd::prelude::*;

pub use crate::proto::settings::ClientType;

verus! {

/// The error when the Iroh client is asked for before it was set up.
pub open spec fn iroh_missing_text() -> Seq<char> {
    "Iroh client not initialized"@
}

/// Hands out the client for a kind of transport: the one Iroh client set up
/// at start, or a fresh plain HTTP client.
pub struct HttpClientManager<I> {
    iroh_client: Option<I>,
}

/// Which client a request goes out through.
pub enum ClientChoice<'a, I> {
    /// The Iroh client.
    Iroh(&'a I),
    /// A plain HTTP client, built for the request.
    Reqwest,
}

impl<I> HttpClientManager<I> {
    /// The Iroh client, once set up.
    pub closed spec fn spec_iroh_client(&self) -> Option<I> {
        self.iroh_client
    }

    /// A manager with no Iroh client yet.
    pub fn new() -> (r: HttpClientManager<I>)
        ensures
            r.spec_iroh_client() is None,
    {
        HttpClientManager { iroh_client: None }
    }

    /// Sets up the Iroh client (at start, once the endpoint is known).
    pub fn init_iroh_endpoint(&mut self, client: I)
        ensures
            final(self).spec_iroh_client() == Some(client),
    {
        self.iroh_client = Some(client);
    }

    /// The client for `client_type`: the Iroh client when it is set up (an
    /// error otherwise), or a plain HTTP client.
    pub fn get_client(&self, client_type: ClientType) -> (r: Result<ClientChoice<'_, I>, String>)
        ensures
            client_type == ClientType::Reqwest ==> r matches Ok(ClientChoice::Reqwest),
            client_type == ClientType::Iroh ==> match self.spec_iroh_client() {
                Some(c) => r matches Ok(ClientChoice::Iroh(i)) && *i == c,
                None => r matches Err(m) && m@ == iroh_missing_text(),
            },
    {
        match client_type {
            ClientType::Iroh => match &self.iroh_client {
                Some(c) => Ok(ClientChoice::Iroh(c)),
                None => Err(String::from_str("Iroh client not initialized")),
            },
            ClientType::Reqwest => Ok(ClientChoice::Reqwest),
        }
    }
}

} // verus!
