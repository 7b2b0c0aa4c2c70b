//! The server's configuration, its builder, and the routing of a request
//! line to the file that answers it.

use vstd::prelude::*;
use crate::request::{request_method, request_path, try_parse_request};
use crate::error::ServeError;
use crate::resolve::{process_path, resolve};
use crate::response::reply_to;

verus! {

/// What a server is configured with, as mathematical values.
pub struct ServerConfig {
    /// The extensions that may be served, or `None` for no restriction.
    pub allowed_exts: Option<Seq<Seq<char>>>,
    /// What every requested path must begin with.
    pub prefix: Seq<char>,
    /// The directory under which the served files live.
    pub root: Seq<char>,
}

/// What a builder has been given so far, as mathematical values.
pub struct BuilderState {
    /// The whitelist, where one has been given.
    pub allowed_exts: Option<Seq<Seq<char>>>,
    /// The prefix, where it has been set.
    pub prefix: Option<Seq<char>>,
    /// The root, where it has been set.
    pub root: Option<Seq<char>>,
}

/// A configured server. Its configuration never changes once built.
pub struct Server {
    allowed_exts: Option<Vec<String>>,
    prefix: String,
    root: String,
}

/// Collects the configuration of a `Server`. The prefix and the root are
/// required; the extension whitelist is optional.
pub struct ServerBuilder {
    allowed_exts: Option<Vec<String>>,
    prefix: Option<String>,
    root: Option<String>,
}

impl View for Server {
    type V = ServerConfig;

    closed spec fn view(&self) -> ServerConfig {
        ServerConfig {
            allowed_exts: self.allowed_exts.deep_view(),
            prefix: self.prefix@,
            root: self.root@,
        }
    }
}

impl View for ServerBuilder {
    type V = BuilderState;

    closed spec fn view(&self) -> BuilderState {
        BuilderState {
            allowed_exts: self.allowed_exts.deep_view(),
            prefix: self.prefix.deep_view(),
            root: self.root.deep_view(),
        }
    }
}

/// The text of the one method that is served.
pub open spec fn get_method() -> Seq<char> {
    seq!['G', 'E', 'T']
}

/// Where the request line `line` leads under the configuration `config`:
/// the file to open, or the reason why there is none. A line without a
/// path, or with a method other than `GET`, is malformed; the path of any
/// other line is resolved against the configuration.
pub open spec fn route_of(config: ServerConfig, line: Seq<char>) -> Result<
    Seq<char>,
    ServeError,
> {
    if !line.contains(' ') || request_method(line) != get_method() {
        Err(ServeError::MalformedRequest)
    } else {
        match resolve(request_path(line), config.allowed_exts, config.prefix, config.root) {
            Ok(file) => Ok(file),
            Err(e) => Err(e.as_serve_error()),
        }
    }
}

/// The routing outcome `res` as text.
pub open spec fn route_text(res: Result<String, ServeError>) -> Result<Seq<char>, ServeError> {
    match res {
        Ok(file) => Ok(file@),
        Err(e) => Err(e),
    }
}

/// A request that cannot be routed gets no reply: whatever failure routing
/// ends in, the connection is dropped without a status line.
pub proof fn lemma_unrouted_request_gets_no_reply(config: ServerConfig, line: Seq<char>)
    requires
        route_of(config, line) is Err,
    ensures
        reply_to(Err(route_of(config, line)->Err_0)) is None,
{
}

impl Server {
    /// A builder that has been given nothing yet.
    pub fn builder() -> (b: ServerBuilder)
        ensures
            b@ == (BuilderState { allowed_exts: None, prefix: None, root: None }),
    {
        ServerBuilder::default()
    }

    /// Routes one request line to the file that answers it: the path to
    /// open, or the failure that ends the request.
    pub fn route(&self, req: &str) -> (res: Result<String, ServeError>)
        ensures
            route_text(res) == route_of(self@, req@),
    {
        let (method, path) = match try_parse_request(req) {
            Some(parts) => parts,
            None => {
                return Err(ServeError::MalformedRequest);
            },
        };
        proof {
            reveal_strlit("GET");
            assert("GET"@ =~= get_method());
        }
        if method != "GET".to_owned() {
            return Err(ServeError::MalformedRequest);
        }
        match process_path(path, &self.allowed_exts, self.prefix.as_str(), self.root.as_str()) {
            Ok(file) => Ok(file),
            Err(e) => Err(ServeError::from(e)),
        }
    }
}

impl Clone for Server {
    /// A copy with the same configuration, for a worker of its own.
    fn clone(&self) -> (copy: Self)
        ensures
            copy@ == self@,
    {
        let allowed_exts = match &self.allowed_exts {
            None => None,
            Some(list) => {
                let mut copied: Vec<String> = Vec::new();
                let mut i: usize = 0;
                while i < list.len()
                    invariant
                        i <= list@.len(),
                        copied@.len() == i,
                        forall|j: int| 0 <= j < i ==> copied@[j]@ == list@[j]@,
                    decreases list@.len() - i,
                {
                    copied.push(list[i].clone());
                    i = i + 1;
                }
                assert(copied.deep_view() =~= list.deep_view());
                Some(copied)
            },
        };
        Server { allowed_exts, prefix: self.prefix.clone(), root: self.root.clone() }
    }
}

impl Default for ServerBuilder {
    fn default() -> (b: Self)
        ensures
            b@ == (BuilderState { allowed_exts: None, prefix: None, root: None }),
    {
        ServerBuilder { allowed_exts: None, prefix: None, root: None }
    }
}

impl ServerBuilder {
    /// Restricts service to paths whose extension is one of `exts`, each
    /// given without its leading dot and compared as given. The list
    /// replaces any earlier one.
    pub fn allow_ext(self, exts: &[&str]) -> (b: Self)
        ensures
            b@ == (BuilderState { allowed_exts: Some(exts.deep_view()), ..self@ }),
    {
        let mut list: Vec<String> = Vec::new();
        let mut i: usize = 0;
        while i < exts.len()
            invariant
                i <= exts@.len(),
                list@.len() == i,
                forall|j: int| 0 <= j < i ==> list@[j]@ == exts@[j]@,
            decreases exts@.len() - i,
        {
            list.push(exts[i].to_owned());
            i = i + 1;
        }
        assert(list.deep_view() =~= exts.deep_view());
        ServerBuilder { allowed_exts: Some(list), prefix: self.prefix, root: self.root }
    }

    /// Sets the prefix that every requested path must begin with.
    pub fn prefix(self, prefix: &str) -> (b: Self)
        ensures
            b@ == (BuilderState { prefix: Some(prefix@), ..self@ }),
    {
        ServerBuilder {
            allowed_exts: self.allowed_exts,
            prefix: Some(prefix.to_owned()),
            root: self.root,
        }
    }

    /// Sets the directory under which the served files live.
    pub fn root(self, root: &str) -> (b: Self)
        ensures
            b@ == (BuilderState { root: Some(root@), ..self@ }),
    {
        ServerBuilder {
            allowed_exts: self.allowed_exts,
            prefix: self.prefix,
            root: Some(root.to_owned()),
        }
    }

    /// Whether the prefix has been set.
    pub fn has_prefix(&self) -> (yes: bool)
        ensures
            yes == self@.prefix is Some,
    {
        self.prefix.is_some()
    }

    /// Whether the root has been set.
    pub fn has_root(&self) -> (yes: bool)
        ensures
            yes == self@.root is Some,
    {
        self.root.is_some()
    }

    /// The server with the configuration collected so far.
    ///
    /// Both the prefix and the root must have been set.
    pub fn build(self) -> (server: Server)
        requires
            self@.prefix is Some,
            self@.root is Some,
        ensures
            server@ == (ServerConfig {
                allowed_exts: self@.allowed_exts,
                prefix: self@.prefix->0,
                root: self@.root->0,
            }),
    {
        Server {
            allowed_exts: self.allowed_exts,
            prefix: self.prefix.unwrap(),
            root: self.root.unwrap(),
        }
    }
}

} // verus!
