//! The server inventory the application browses: categories of servers, the
//! SSH settings and the quick command snippets.
use vstd::prelude::*;

use crate::text::{concat3, decimal, decimal_string, owned};

verus! {

/// One SSH target.
#[derive(Clone, Debug)]
pub struct Server {
    pub name: String,
    pub host: String,
    pub port: u16,
    pub user: String,
    pub status: String,
    pub ip_public: String,
    pub subnet: String,
}

impl Default for Server {
    fn default() -> (s: Self)
        ensures
            s.name@ == Seq::<char>::empty(),
            s.host@ == Seq::<char>::empty(),
            s.port == 22,
            s.user@ == Seq::<char>::empty(),
            s.status@ == Seq::<char>::empty(),
            s.ip_public@ == Seq::<char>::empty(),
            s.subnet@ == Seq::<char>::empty(),
    {
        Server {
            name: String::new(),
            host: String::new(),
            port: 22,
            user: String::new(),
            status: String::new(),
            ip_public: String::new(),
            subnet: String::new(),
        }
    }
}

/// How a server's address is shown: the host, with `:port` unless the port is 22.
pub open spec fn display_addr_of(s: Server) -> Seq<char> {
    if s.port == 22 {
        s.host@
    } else {
        s.host@ + seq![':'] + decimal(s.port as nat)
    }
}

impl Server {
    /// A copy of this server, field for field.
    pub fn duplicate(&self) -> (r: Server)
        ensures
            r == *self,
    {
        Server {
            name: self.name.clone(),
            host: self.host.clone(),
            port: self.port,
            user: self.user.clone(),
            status: self.status.clone(),
            ip_public: self.ip_public.clone(),
            subnet: self.subnet.clone(),
        }
    }

    /// The address shown for this server.
    pub fn display_addr(&self) -> (r: String)
        ensures
            r@ == display_addr_of(*self),
    {
        if self.port == 22 {
            owned(self.host.as_str())
        } else {
            let p = decimal_string(self.port as u64);
            proof {
                reveal_strlit(":");
            }
            concat3(self.host.as_str(), ":", p.as_str())
        }
    }
}

/// A named group of servers.
#[derive(Clone, Debug)]
pub struct Category {
    pub name: String,
    pub servers: Vec<Server>,
}

/// Connection settings.
#[derive(Clone, Debug)]
pub struct Settings {
    pub ssh_key: String,
}

/// A quick command offered in the command palette.
#[derive(Clone, Debug)]
pub struct CommandSnippet {
    pub name: String,
    pub key: String,
    pub command: String,
}

/// The whole inventory.
#[derive(Clone, Debug)]
pub struct Config {
    pub categories: Vec<Category>,
    pub settings: Settings,
    pub commands: Vec<CommandSnippet>,
    pub loaded_from_api: bool,
}

/// Number of servers in all categories, counted up to category `n`.
pub open spec fn servers_upto(cats: Seq<Category>, n: int) -> nat
    decreases n,
{
    if n <= 0 {
        0
    } else {
        servers_upto(cats, n - 1) + cats[n - 1].servers@.len()
    }
}

/// Number of servers in the whole inventory.
pub open spec fn total_servers(cats: Seq<Category>) -> nat {
    servers_upto(cats, cats.len() as int)
}

/// The counts over prefixes never decrease.
pub proof fn lemma_servers_upto_monotone(cats: Seq<Category>, a: int, b: int)
    requires
        0 <= a <= b <= cats.len(),
    ensures
        servers_upto(cats, a) <= servers_upto(cats, b),
    decreases b - a,
{
    if a < b {
        lemma_servers_upto_monotone(cats, a, b - 1);
    }
}

impl Config {
    /// An inventory whose server count fits a machine word.
    pub open spec fn wf(&self) -> bool {
        total_servers(self.categories@) <= usize::MAX
    }
}

} // verus!
