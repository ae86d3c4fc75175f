//! The service generator: the generated code of the services of a run, kept
//! apart for clients and servers until it is flushed into a file.

use crate::builder::Builder;
use crate::builder::PackageService;
use crate::tokens::extend;
use crate::tokens::token_trees;
use proc_macro2::TokenStream;
use vstd::prelude::*;
use vstd::string::StringExecFns;

verus! {

/// What the code generator is asked for, for each service of a run.
#[derive(Debug, Clone, Copy, PartialEq, Eq)]
pub struct CodeGenOptions {
    /// Whether a server is generated.
    pub server: bool,
    /// Whether a client is generated.
    pub client: bool,
    /// Whether routes name the package of the service.
    pub emit_package: bool,
    /// Whether the well known types are compiled rather than taken from a
    /// library.
    pub compile_well_known_types: bool,
    /// Whether the client gets its transport conveniences.
    pub build_transport: bool,
}

/// The two halves of generated code, each there or not.
#[derive(Debug, Clone)]
pub struct Fragments<T> {
    /// The code of the clients.
    pub client: Option<T>,
    /// The code of the servers.
    pub server: Option<T>,
}

/// The text that a half contributes to a file: its own, or nothing.
pub open spec fn half_text(half: Option<String>) -> Seq<char> {
    match half {
        Some(text) => text@,
        None => Seq::<char>::empty(),
    }
}

/// The tokens that a half contributes: its own, or none.
pub open spec fn half_tokens(half: Option<TokenStream>) -> Seq<Seq<char>> {
    match half {
        Some(tokens) => token_trees(tokens),
        None => Seq::<Seq<char>>::empty(),
    }
}

impl Fragments<String> {
    /// Writes the halves at the end of `buf`: the clients first, then the
    /// servers.
    pub fn write_to(&self, buf: &mut String)
        ensures
            final(buf)@ == old(buf)@ + half_text(self.client) + half_text(self.server),
    {
        match &self.client {
            Some(code) => {
                buf.append(code.as_str());
            },
            None => {},
        }
        match &self.server {
            Some(code) => {
                buf.append(code.as_str());
            },
            None => {},
        }
    }
}

/// Collects the generated code of services, clients and servers apart, between
/// two flushes.
pub struct ServiceGenerator<N = PackageService> {
    builder: Builder<N>,
    clients: TokenStream,
    servers: TokenStream,
}

impl<N> ServiceGenerator<N> {
    /// The options of the run.
    pub closed spec fn builder(&self) -> Builder<N> {
        self.builder
    }

    /// The client code collected since the last flush.
    pub closed spec fn clients(&self) -> Seq<Seq<char>> {
        token_trees(self.clients)
    }

    /// The server code collected since the last flush.
    pub closed spec fn servers(&self) -> Seq<Seq<char>> {
        token_trees(self.servers)
    }

    /// A half that is switched off collects nothing.
    pub open spec fn wf(&self) -> bool {
        &&& !self.builder().build_client ==> self.clients().len() == 0
        &&& !self.builder().build_server ==> self.servers().len() == 0
    }

    /// A generator for a run with the options of `builder`, with nothing
    /// collected yet.
    pub fn new(builder: Builder<N>) -> (generator: Self)
        ensures
            generator.wf(),
            generator.builder() == builder,
            generator.clients().len() == 0,
            generator.servers().len() == 0,
    {
        ServiceGenerator { builder, clients: TokenStream::new(), servers: TokenStream::new() }
    }

    /// The options of the run.
    pub fn options(&self) -> (builder: &Builder<N>)
        ensures
            *builder == self.builder(),
    {
        &self.builder
    }

    /// What to ask of the code generator for a service: the halves that the
    /// options switch on, routes with the package in them, the well known
    /// types from their library.
    pub fn code_gen_options(&self) -> (options: CodeGenOptions)
        ensures
            options == (CodeGenOptions {
                server: self.builder().build_server,
                client: self.builder().build_client,
                emit_package: true,
                compile_well_known_types: false,
                build_transport: self.builder().build_transport,
            }),
    {
        CodeGenOptions {
            server: self.builder.build_server,
            client: self.builder.build_client,
            emit_package: true,
            compile_well_known_types: false,
            build_transport: self.builder.build_transport,
        }
    }

    /// Takes in the code generated for one service: each half that is there
    /// and switched on goes to the end of what is collected of it.
    pub fn generate(&mut self, generated: Fragments<TokenStream>)
        requires
            old(self).wf(),
        ensures
            final(self).wf(),
            final(self).builder() == old(self).builder(),
            final(self).servers() == old(self).servers() + (if old(self).builder().build_server {
                half_tokens(generated.server)
            } else {
                Seq::<Seq<char>>::empty()
            }),
            final(self).clients() == old(self).clients() + (if old(self).builder().build_client {
                half_tokens(generated.client)
            } else {
                Seq::<Seq<char>>::empty()
            }),
    {
        if self.builder.build_server {
            match generated.server {
                Some(server) => {
                    extend(&mut self.servers, server);
                },
                None => {},
            }
        }
        if self.builder.build_client {
            match generated.client {
                Some(client) => {
                    extend(&mut self.clients, client);
                },
                None => {},
            }
        }
    }

    /// Flushes: hands out what is collected, each half that holds anything, and
    /// starts over with nothing collected.
    pub fn finalize(&mut self) -> (flushed: Fragments<TokenStream>)
        requires
            old(self).wf(),
        ensures
            final(self).wf(),
            final(self).builder() == old(self).builder(),
            final(self).clients().len() == 0,
            final(self).servers().len() == 0,
            flushed.client is Some <==> old(self).clients().len() > 0,
            flushed.server is Some <==> old(self).servers().len() > 0,
            half_tokens(flushed.client) == old(self).clients(),
            half_tokens(flushed.server) == old(self).servers(),
    {
        let mut flushed = Fragments { client: None, server: None };
        if self.builder.build_client && !self.clients.is_empty() {
            let mut clients = TokenStream::new();
            std::mem::swap(&mut self.clients, &mut clients);
            flushed.client = Some(clients);
        }
        if self.builder.build_server && !self.servers.is_empty() {
            let mut servers = TokenStream::new();
            std::mem::swap(&mut self.servers, &mut servers);
            flushed.server = Some(servers);
        }
        flushed
    }
}

} // verus!
