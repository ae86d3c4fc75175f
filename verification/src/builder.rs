//! The builder: the options of a generation run, and what a run decides from
//! them before any code is generated.

use crate::descriptor::FileDescriptor;
use crate::descriptor::FileDescriptorView;
use crate::descriptor::MethodDescriptor;
use crate::descriptor::MethodDescriptorView;
use crate::descriptor::ServiceDescriptor;
use crate::descriptor::ServiceDescriptorView;
use crate::model::Method;
use crate::model::MethodView;
use crate::model::Service;
use crate::model::ServiceView;
use crate::naming::protobuf_path_to_rust_mod;
use crate::naming::protobuf_path_to_rust_path;
use crate::naming::rust_method_name_convention;
use crate::naming::rust_mod_name_convention;
use crate::naming::rust_path;
use crate::naming::segments;
use crate::naming::snake_case;
use std::path::PathBuf;
use vstd::prelude::*;
use vstd::string::StrSliceExecFns;
use vstd::string::StringExecFns;

verus! {

/// A path of the file system, carried from the caller to where files are
/// written; nothing here looks inside it.
#[verifier::external_type_specification]
#[verifier::external_body]
pub struct ExPathBuf(PathBuf);

/// The names that files have by default: `{package}_{service}`.
#[derive(Debug, Clone, Copy, Default)]
pub struct PackageService;

/// The names that a function of the caller gives to files: from the package
/// and the name of a service to the name of its file, without the `.rs`
/// extension.
pub struct FileNameFn<F>(pub F);

/// The name that a file has by default, before it is made a module name.
pub open spec fn default_file_name(package: Seq<char>, service: Seq<char>) -> Seq<char> {
    package + seq!['_'] + service
}

/// Service generator builder.
#[derive(Debug)]
pub struct Builder<N = PackageService> {
    /// The path below which generated code finds the message types.
    pub proto_path: String,
    /// How the files of the services are named.
    pub file_name_fn: N,
    /// Whether servers are generated.
    pub build_server: bool,
    /// Whether clients are generated.
    pub build_client: bool,
    /// Whether generated clients get their transport conveniences.
    pub build_transport: bool,
    /// The path to the codec that generated code creates.
    pub codec_path: String,
    /// The directory that the files go to, where one is set.
    pub out_dir: Option<PathBuf>,
}

impl Default for Builder<PackageService> {
    fn default() -> (builder: Self)
        ensures
            builder.proto_path@ == "super"@,
            builder.codec_path@ == "::tonic_codec_protobuf::ProtobufCodecV3"@,
            builder.build_server,
            builder.build_client,
            builder.build_transport,
            builder.out_dir is None,
    {
        Builder {
            proto_path: "super".to_owned(),
            codec_path: "::tonic_codec_protobuf::ProtobufCodecV3".to_owned(),
            file_name_fn: PackageService,
            build_server: true,
            build_client: true,
            build_transport: true,
            out_dir: None,
        }
    }
}

impl Builder<PackageService> {
    /// Create a new Builder, with every option at its default.
    pub fn new() -> (builder: Self)
        ensures
            builder.proto_path@ == "super"@,
            builder.codec_path@ == "::tonic_codec_protobuf::ProtobufCodecV3"@,
            builder.build_server,
            builder.build_client,
            builder.build_transport,
            builder.out_dir is None,
    {
        Builder::default()
    }
}

impl<N> Builder<N> {
    /// Override the default codec.
    ///
    /// If set, writes `{codec_path}::default()` in generated code wherever a
    /// codec is created.
    ///
    /// This defaults to `"::tonic_codec_protobuf::ProtobufCodecV3"`.
    pub fn codec_path(self, codec_path: &str) -> (builder: Self)
        ensures
            builder.codec_path@ == codec_path@,
            builder == (Builder { codec_path: builder.codec_path, ..self }),
    {
        let mut builder = self;
        builder.codec_path = codec_path.to_owned();
        builder
    }

    /// Set the path to where the generated code will search for the
    /// Request/Response proto structs live relative to the module where you
    /// call `include_proto!`.
    ///
    /// This defaults to `super`.
    pub fn proto_path(self, proto_path: &str) -> (builder: Self)
        ensures
            builder.proto_path@ == proto_path@,
            builder == (Builder { proto_path: builder.proto_path, ..self }),
    {
        let mut builder = self;
        builder.proto_path = proto_path.to_owned();
        builder
    }

    /// Specify names of generated rust files. The `file_name_fn` is provided
    /// with `package_name` and `service_name`, and it should return a name
    /// without ".rs" extension.
    ///
    /// This defaults to `"{package_name}_{service_name}"`.
    pub fn file_name<F>(self, file_name_fn: F) -> (builder: Builder<FileNameFn<F>>) where
        F: Fn(&str, &str) -> String,

        ensures
            builder == (Builder {
                proto_path: self.proto_path,
                file_name_fn: FileNameFn(file_name_fn),
                build_server: self.build_server,
                build_client: self.build_client,
                build_transport: self.build_transport,
                codec_path: self.codec_path,
                out_dir: self.out_dir,
            }),
    {
        Builder {
            proto_path: self.proto_path,
            file_name_fn: FileNameFn(file_name_fn),
            build_server: self.build_server,
            build_client: self.build_client,
            build_transport: self.build_transport,
            codec_path: self.codec_path,
            out_dir: self.out_dir,
        }
    }

    /// Enable or disable gRPC client code generation.
    ///
    /// Defaults to enabling client code generation.
    pub fn build_client(self, enable: bool) -> (builder: Self)
        ensures
            builder == (Builder { build_client: enable, ..self }),
    {
        let mut builder = self;
        builder.build_client = enable;
        builder
    }

    /// Enable or disable gRPC server code generation.
    ///
    /// Defaults to enabling server code generation.
    pub fn build_server(self, enable: bool) -> (builder: Self)
        ensures
            builder == (Builder { build_server: enable, ..self }),
    {
        let mut builder = self;
        builder.build_server = enable;
        builder
    }

    /// Enable or disable generated clients and servers to have built-in tonic
    /// transport features.
    pub fn build_transport(self, enable: bool) -> (builder: Self)
        ensures
            builder == (Builder { build_transport: enable, ..self }),
    {
        let mut builder = self;
        builder.build_transport = enable;
        builder
    }

    /// Set the output directory to generate code to.
    ///
    /// Where none is set, the code goes to the directory that the build names
    /// in `OUT_DIR`.
    pub fn out_dir(self, out_dir: PathBuf) -> (builder: Self)
        ensures
            builder == (Builder { out_dir: Some(out_dir), ..self }),
    {
        let mut builder = self;
        builder.out_dir = Some(out_dir);
        builder
    }
}

/// The type that an rpc does not name.
#[derive(Debug, Clone, Copy, PartialEq, Eq, Structural)]
pub enum MissingType {
    /// The request type.
    Input,
    /// The response type.
    Output,
}

/// Why no services were built: an rpc leaves its request or response type
/// empty.
#[derive(Debug, Clone, PartialEq, Eq)]
pub struct BuildError {
    /// The name of the service of the rpc.
    pub service: String,
    /// The name of the rpc.
    pub method: String,
    /// The type that it does not name.
    pub missing: MissingType,
}

/// What a [`BuildError`] holds.
pub struct BuildErrorView {
    pub service: Seq<char>,
    pub method: Seq<char>,
    pub missing: MissingType,
}

impl View for BuildError {
    type V = BuildErrorView;

    open spec fn view(&self) -> BuildErrorView {
        BuildErrorView { service: self.service@, method: self.method@, missing: self.missing }
    }
}

/// The words of the message for a type that is missing.
pub open spec fn missing_words(missing: MissingType) -> Seq<char> {
    match missing {
        MissingType::Input => " names no request type"@,
        MissingType::Output => " names no response type"@,
    }
}

/// The message of an error: the rpc, its service, and the type that is missing.
pub open spec fn error_message(error: BuildErrorView) -> Seq<char> {
    "rpc "@ + error.method + " of service "@ + error.service + missing_words(error.missing)
}

impl BuildError {
    /// The error in words, for the one who runs the build.
    pub fn message(&self) -> (message: String)
        ensures
            message@ == error_message(self@),
    {
        let mut message = "rpc ".to_owned();
        message.append(self.method.as_str());
        message.append(" of service ");
        message.append(self.service.as_str());
        match self.missing {
            MissingType::Input => {
                message.append(" names no request type");
            },
            MissingType::Output => {
                message.append(" names no response type");
            },
        }
        message
    }
}

/// What each of `services` holds.
pub open spec fn service_views(services: Seq<Service>) -> Seq<ServiceView> {
    services.map_values(|s: Service| s@)
}

/// What each of `files` holds.
pub open spec fn file_views(files: Seq<FileDescriptor>) -> Seq<FileDescriptorView> {
    files.map_values(|f: FileDescriptor| f@)
}

/// The type that `rpc` does not name, the request type first.
pub open spec fn missing_type(rpc: MethodDescriptorView) -> Option<MissingType> {
    if rpc.input_type.len() == 0 {
        Some(MissingType::Input)
    } else if rpc.output_type.len() == 0 {
        Some(MissingType::Output)
    } else {
        None
    }
}

/// Every rpc of `service` names both its types.
pub open spec fn service_complete(service: ServiceDescriptorView) -> bool {
    forall|j: int| 0 <= j < service.methods.len() ==> missing_type(#[trigger] service.methods[j]) is None
}

/// Every rpc of `file` names both its types.
pub open spec fn file_complete(file: FileDescriptorView) -> bool {
    forall|i: int| 0 <= i < file.services.len() ==> service_complete(#[trigger] file.services[i])
}

/// The rpc `method` of the service `service` of `file` is the first, in the
/// order of the file, that does not name both its types.
pub open spec fn first_incomplete(file: FileDescriptorView, service: int, method: int) -> bool {
    &&& 0 <= service < file.services.len()
    &&& 0 <= method < file.services[service].methods.len()
    &&& missing_type(file.services[service].methods[method]) is Some
    &&& forall|j: int| 0 <= j < method ==> missing_type(#[trigger] file.services[service].methods[j]) is None
    &&& forall|i: int| 0 <= i < service ==> service_complete(#[trigger] file.services[i])
}

/// The error for the rpc `method` of the service `service` of `file`.
pub open spec fn error_at(file: FileDescriptorView, service: int, method: int) -> BuildErrorView {
    BuildErrorView {
        service: file.services[service].name,
        method: file.services[service].methods[method].name,
        missing: missing_type(file.services[service].methods[method]).unwrap(),
    }
}

/// The method built from `rpc`: the name in snake_case, the route name as the
/// rpc has it, both types as Rust paths, both streaming flags as they are, and
/// the codec of the run.
pub open spec fn built_method(codec_path: Seq<char>, rpc: MethodDescriptorView) -> MethodView {
    MethodView {
        name: snake_case(rpc.name),
        route_name: rpc.name,
        input_type: rust_path(rpc.input_type),
        output_type: rust_path(rpc.output_type),
        client_streaming: rpc.client_streaming,
        server_streaming: rpc.server_streaming,
        codec_path,
    }
}

/// The service built from `service` of a file whose package has the Rust
/// module `package`: each rpc as a method, in order.
pub open spec fn built_service(
    codec_path: Seq<char>,
    package: Seq<char>,
    service: ServiceDescriptorView,
) -> ServiceView {
    ServiceView {
        name: service.name,
        package,
        methods: service.methods.map_values(|rpc: MethodDescriptorView| built_method(codec_path, rpc)),
    }
}

/// The services built from `file`, in order, each under the last segment of the
/// package path of the file.
pub open spec fn built_services(codec_path: Seq<char>, file: FileDescriptorView) -> Seq<ServiceView> {
    file.services.map_values(
        |service: ServiceDescriptorView|
            built_service(codec_path, segments(file.package).last(), service),
    )
}

/// The services built from `files`: those of the first file, then those of the
/// second, and so on.
pub open spec fn all_built_services(codec_path: Seq<char>, files: Seq<FileDescriptorView>) -> Seq<
    ServiceView,
>
    decreases files.len(),
{
    if files.len() == 0 {
        Seq::<ServiceView>::empty()
    } else {
        all_built_services(codec_path, files.drop_last()) + built_services(codec_path, files.last())
    }
}

/// The file name of a module whose name before conversion is `base`.
pub open spec fn module_file(base: Seq<char>) -> Seq<char> {
    snake_case(base) + seq!['.', 'r', 's']
}

/// Building keeps every service and every rpc in its place: the services built
/// from a file are as many as the file has, each with as many methods as it has
/// rpcs, and each method is built from the rpc at its position.
pub proof fn lemma_order_kept(
    codec_path: Seq<char>,
    file: FileDescriptorView,
    service: int,
    method: int,
)
    requires
        0 <= service < file.services.len(),
        0 <= method < file.services[service].methods.len(),
    ensures
        built_services(codec_path, file).len() == file.services.len(),
        built_services(codec_path, file)[service].name == file.services[service].name,
        built_services(codec_path, file)[service].methods.len()
            == file.services[service].methods.len(),
        built_services(codec_path, file)[service].methods[method] == built_method(
            codec_path,
            file.services[service].methods[method],
        ),
{
}

/// A method streams as its rpc declares: each of the two flags is the flag of
/// the rpc, whatever the other one is.
pub proof fn lemma_streaming_flags_kept(
    codec_path: Seq<char>,
    file: FileDescriptorView,
    service: int,
    method: int,
)
    requires
        0 <= service < file.services.len(),
        0 <= method < file.services[service].methods.len(),
    ensures
        built_services(codec_path, file)[service].methods[method].client_streaming
            == file.services[service].methods[method].client_streaming,
        built_services(codec_path, file)[service].methods[method].server_streaming
            == file.services[service].methods[method].server_streaming,
{
    lemma_order_kept(codec_path, file, service, method);
}

/// The route name of a method is the name of its rpc as the file spells it,
/// whatever the Rust name of the method has become.
pub proof fn lemma_route_name_kept(
    codec_path: Seq<char>,
    file: FileDescriptorView,
    service: int,
    method: int,
)
    requires
        0 <= service < file.services.len(),
        0 <= method < file.services[service].methods.len(),
    ensures
        built_services(codec_path, file)[service].methods[method].route_name
            == file.services[service].methods[method].name,
        built_services(codec_path, file)[service].methods[method].name == snake_case(
            file.services[service].methods[method].name,
        ),
{
    lemma_order_kept(codec_path, file, service, method);
}

impl<N> Builder<N> {
    fn build_method(&self, rpc: &MethodDescriptor) -> (method: Method)
        ensures
            method@ == built_method(self.codec_path@, rpc@),
    {
        Method {
            name: rust_method_name_convention(rpc.name.as_str()),
            route_name: rpc.name.clone(),
            input_type: protobuf_path_to_rust_path(rpc.input_type.as_str()),
            output_type: protobuf_path_to_rust_path(rpc.output_type.as_str()),
            codec_path: self.codec_path.clone(),
            client_streaming: rpc.client_streaming,
            server_streaming: rpc.server_streaming,
        }
    }

    fn build_service(&self, package: &str, service: &ServiceDescriptor) -> (built: Result<
        Service,
        BuildError,
    >)
        ensures
            match built {
                Ok(built) => service_complete(service@) && built@ == built_service(
                    self.codec_path@,
                    package@,
                    service@,
                ),
                Err(error) => exists|j: int|
                    {
                        &&& 0 <= j < service@.methods.len()
                        &&& missing_type(#[trigger] service@.methods[j]) == Some(error.missing)
                        &&& error.method@ == service@.methods[j].name
                        &&& error.service@ == service@.name
                        &&& forall|k: int|
                            0 <= k < j ==> missing_type(#[trigger] service@.methods[k]) is None
                    },
            },
    {
        let mut methods: Vec<Method> = Vec::new();
        let mut j: usize = 0;
        while j < service.methods.len()
            invariant
                j <= service.methods.len(),
                methods@.len() == j,
                forall|k: int| 0 <= k < j ==> missing_type(#[trigger] service@.methods[k]) is None,
                forall|k: int|
                    0 <= k < j ==> (#[trigger] methods@[k])@ == built_method(
                        self.codec_path@,
                        service@.methods[k],
                    ),
            decreases service.methods.len() - j,
        {
            let rpc = &service.methods[j];
            assert(service@.methods[j as int] == rpc@);
            if rpc.input_type.as_str().unicode_len() == 0 {
                return Err(
                    BuildError {
                        service: service.name.clone(),
                        method: rpc.name.clone(),
                        missing: MissingType::Input,
                    },
                );
            }
            if rpc.output_type.as_str().unicode_len() == 0 {
                return Err(
                    BuildError {
                        service: service.name.clone(),
                        method: rpc.name.clone(),
                        missing: MissingType::Output,
                    },
                );
            }
            methods.push(self.build_method(rpc));
            j = j + 1;
        }
        let built = Service { name: service.name.clone(), package: package.to_owned(), methods };
        assert(built@.methods =~= built_service(self.codec_path@, package@, service@).methods);
        Ok(built)
    }

    /// Build services from the provided file descriptor: one for each service
    /// of the file, in order, with each rpc as a method, in order.
    ///
    /// Where an rpc leaves its request or response type empty, nothing is built:
    /// the error names the first such rpc.
    pub fn build_services(&self, fd: &FileDescriptor) -> (built: Result<Vec<Service>, BuildError>)
        ensures
            match built {
                Ok(services) => file_complete(fd@) && service_views(services@) == built_services(
                    self.codec_path@,
                    fd@,
                ),
                Err(error) => exists|i: int, j: int|
                    #[trigger] first_incomplete(fd@, i, j) && error@ == error_at(fd@, i, j),
            },
    {
        let package_name = protobuf_path_to_rust_mod(fd.package.as_str());
        let mut services: Vec<Service> = Vec::new();
        let mut i: usize = 0;
        while i < fd.services.len()
            invariant
                i <= fd.services.len(),
                services@.len() == i,
                package_name@ == segments(fd@.package).last(),
                forall|k: int| 0 <= k < i ==> service_complete(#[trigger] fd@.services[k]),
                forall|k: int|
                    0 <= k < i ==> (#[trigger] services@[k])@ == built_service(
                        self.codec_path@,
                        package_name@,
                        fd@.services[k],
                    ),
            decreases fd.services.len() - i,
        {
            let svc = &fd.services[i];
            assert(fd@.services[i as int] == svc@);
            match self.build_service(package_name.as_str(), svc) {
                Ok(service) => {
                    services.push(service);
                },
                Err(error) => {
                    proof {
                        let j = choose|j: int|
                            {
                                &&& 0 <= j < svc@.methods.len()
                                &&& missing_type(#[trigger] svc@.methods[j]) == Some(error.missing)
                                &&& error.method@ == svc@.methods[j].name
                                &&& error.service@ == svc@.name
                                &&& forall|k: int|
                                    0 <= k < j ==> missing_type(#[trigger] svc@.methods[k]) is None
                            };
                        assert(first_incomplete(fd@, i as int, j));
                        assert(error@ == error_at(fd@, i as int, j));
                    }
                    return Err(error);
                },
            }
            i = i + 1;
        }
        assert(service_views(services@) =~= built_services(self.codec_path@, fd@));
        Ok(services)
    }

    /// The services of a generation run: those built from each of `files`, in
    /// the order of the files.
    ///
    /// Where an rpc of any file leaves its request or response type empty,
    /// nothing is built: the error names the first such rpc of the first such
    /// file.
    pub fn compile(&self, files: &[FileDescriptor]) -> (built: Result<Vec<Service>, BuildError>)
        ensures
            match built {
                Ok(services) => {
                    &&& forall|k: int| 0 <= k < files@.len() ==> file_complete(#[trigger] files@[k]@)
                    &&& service_views(services@) == all_built_services(
                        self.codec_path@,
                        file_views(files@),
                    )
                },
                Err(error) => exists|k: int, i: int, j: int|
                    {
                        &&& 0 <= k < files@.len()
                        &&& #[trigger] first_incomplete(files@[k]@, i, j)
                        &&& error@ == error_at(files@[k]@, i, j)
                        &&& forall|h: int| 0 <= h < k ==> file_complete(#[trigger] files@[h]@)
                    },
            },
    {
        let mut services: Vec<Service> = Vec::new();
        let mut k: usize = 0;
        while k < files.len()
            invariant
                k <= files@.len(),
                forall|h: int| 0 <= h < k ==> file_complete(#[trigger] files@[h]@),
                service_views(services@) == all_built_services(
                    self.codec_path@,
                    file_views(files@).take(k as int),
                ),
            decreases files@.len() - k,
        {
            let built = self.build_services(&files[k]);
            match built {
                Ok(mut more) => {
                    proof {
                        let views = file_views(files@);
                        assert(views.take(k + 1).drop_last() == views.take(k as int));
                        assert(views.take(k + 1).last() == files@[k as int]@);
                        assert(service_views(services@ + more@) == service_views(services@)
                            + service_views(more@));
                    }
                    services.append(&mut more);
                },
                Err(error) => {
                    return Err(error);
                },
            }
            k = k + 1;
        }
        assert(file_views(files@).take(k as int) == file_views(files@));
        Ok(services)
    }
}

impl Builder<PackageService> {
    /// The name of the file that the code of `service` is written to:
    /// `{package}_{service}` as a module name, with the extension `.rs`.
    pub fn module_file_name(&self, service: &Service) -> (file_name: String)
        ensures
            file_name@ == module_file(default_file_name(service.package@, service.name@)),
    {
        proof {
            reveal_strlit("_");
            reveal_strlit(".rs");
        }
        let mut base = service.package.clone();
        base.append("_");
        base.append(service.name.as_str());
        assert(base@ == default_file_name(service.package@, service.name@));
        let mut file_name = rust_mod_name_convention(base.as_str());
        file_name.append(".rs");
        assert(file_name@ == module_file(base@));
        file_name
    }
}

impl<F: Fn(&str, &str) -> String> Builder<FileNameFn<F>> {
    /// The name of the file that the code of `service` is written to: what the
    /// file name function gives for its package and its name, as a module name,
    /// with the extension `.rs`. The function is called once.
    pub fn module_file_name(&self, service: &Service) -> (file_name: String)
        requires
            forall|package: &str, name: &str|
                package@ == service.package@ && name@ == service.name@ ==> call_requires(
                    self.file_name_fn.0,
                    (package, name),
                ),
        ensures
            exists|package: &str, name: &str, base: String|
                {
                    &&& package@ == service.package@
                    &&& name@ == service.name@
                    &&& call_ensures(self.file_name_fn.0, (package, name), base)
                    &&& file_name@ == module_file(base@)
                },
    {
        let base = (self.file_name_fn.0)(service.package.as_str(), service.name.as_str());
        let mut file_name = rust_mod_name_convention(base.as_str());
        proof {
            reveal_strlit(".rs");
        }
        file_name.append(".rs");
        assert(file_name@ == module_file(base@));
        file_name
    }
}

} // verus!
