//! Service descriptors: what a compiled `.proto` file says of its services.

use vstd::prelude::*;

verus! {

/// One rpc of a service, as the `.proto` file declares it.
#[derive(Debug, Default, Clone, PartialEq, Eq)]
pub struct MethodDescriptor {
    /// The name of the rpc.
    pub name: String,
    /// The dotted path of the request message type.
    pub input_type: String,
    /// The dotted path of the response message type.
    pub output_type: String,
    /// Whether the client sends a stream of requests.
    pub client_streaming: bool,
    /// Whether the server sends a stream of responses.
    pub server_streaming: bool,
}

/// One service of a `.proto` file.
#[derive(Debug, Default, Clone, PartialEq, Eq)]
pub struct ServiceDescriptor {
    /// The name of the service.
    pub name: String,
    /// Its rpcs, in the order of the file.
    pub methods: Vec<MethodDescriptor>,
}

/// One `.proto` file, as far as services are concerned.
#[derive(Debug, Default, Clone, PartialEq, Eq)]
pub struct FileDescriptor {
    /// The dotted package path of the file; empty where it declares none.
    pub package: String,
    /// Its services, in the order of the file.
    pub services: Vec<ServiceDescriptor>,
}

/// What a [`MethodDescriptor`] holds.
pub struct MethodDescriptorView {
    pub name: Seq<char>,
    pub input_type: Seq<char>,
    pub output_type: Seq<char>,
    pub client_streaming: bool,
    pub server_streaming: bool,
}

/// What a [`ServiceDescriptor`] holds.
pub struct ServiceDescriptorView {
    pub name: Seq<char>,
    pub methods: Seq<MethodDescriptorView>,
}

/// What a [`FileDescriptor`] holds.
pub struct FileDescriptorView {
    pub package: Seq<char>,
    pub services: Seq<ServiceDescriptorView>,
}

impl View for MethodDescriptor {
    type V = MethodDescriptorView;

    open spec fn view(&self) -> MethodDescriptorView {
        MethodDescriptorView {
            name: self.name@,
            input_type: self.input_type@,
            output_type: self.output_type@,
            client_streaming: self.client_streaming,
            server_streaming: self.server_streaming,
        }
    }
}

impl View for ServiceDescriptor {
    type V = ServiceDescriptorView;

    open spec fn view(&self) -> ServiceDescriptorView {
        ServiceDescriptorView {
            name: self.name@,
            methods: self.methods@.map_values(|m: MethodDescriptor| m@),
        }
    }
}

impl View for FileDescriptor {
    type V = FileDescriptorView;

    open spec fn view(&self) -> FileDescriptorView {
        FileDescriptorView {
            package: self.package@,
            services: self.services@.map_values(|s: ServiceDescriptor| s@),
        }
    }
}

} // verus!
