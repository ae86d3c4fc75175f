//! The service model: a service and its methods as the code generator reads
//! them.

use crate::naming::qualified_type;
use crate::naming::rust_path;
use crate::tokens::parse_path;
use crate::tokens::path_token_trees;
use crate::tokens::token_trees;
use proc_macro2::TokenStream;
use vstd::prelude::*;
use vstd::string::StringExecFns;

verus! {

/// A service method, with its names and types in Rust form.
#[derive(Debug, Default, Clone, PartialEq, Eq)]
pub struct Method {
    /// The name of the method in Rust style.
    pub name: String,
    /// The name of the method as it is used when constructing a route.
    pub route_name: String,
    /// The input Rust type.
    pub input_type: String,
    /// The output Rust type.
    pub output_type: String,
    /// Whether the client streams multiple messages.
    pub client_streaming: bool,
    /// Whether the server streams multiple messages.
    pub server_streaming: bool,
    /// The path to the codec to use for this method.
    pub codec_path: String,
}

/// A service, with its methods in the order of the `.proto` file.
#[derive(Debug, Default, Clone, PartialEq, Eq)]
pub struct Service {
    /// The name of the service.
    pub name: String,
    /// The Rust module of the package that declares the service.
    pub package: String,
    /// The service methods.
    pub methods: Vec<Method>,
}

/// What a [`Method`] holds.
pub struct MethodView {
    pub name: Seq<char>,
    pub route_name: Seq<char>,
    pub input_type: Seq<char>,
    pub output_type: Seq<char>,
    pub client_streaming: bool,
    pub server_streaming: bool,
    pub codec_path: Seq<char>,
}

/// What a [`Service`] holds.
pub struct ServiceView {
    pub name: Seq<char>,
    pub package: Seq<char>,
    pub methods: Seq<MethodView>,
}

impl View for Method {
    type V = MethodView;

    open spec fn view(&self) -> MethodView {
        MethodView {
            name: self.name@,
            route_name: self.route_name@,
            input_type: self.input_type@,
            output_type: self.output_type@,
            client_streaming: self.client_streaming,
            server_streaming: self.server_streaming,
            codec_path: self.codec_path@,
        }
    }
}

impl View for Service {
    type V = ServiceView;

    open spec fn view(&self) -> ServiceView {
        ServiceView {
            name: self.name@,
            package: self.package@,
            methods: self.methods@.map_values(|m: Method| m@),
        }
    }
}

/// The text that names `rust_type` from generated code below `proto_path`; an
/// empty type stays empty, and names nothing.
pub open spec fn type_reference(proto_path: Seq<char>, rust_type: Seq<char>) -> Seq<char> {
    if rust_type.len() == 0 {
        rust_type
    } else {
        proto_path + rust_type
    }
}

/// The tokens of the path that names `rust_type` from generated code below
/// `proto_path`: there are none for an empty type, and none where the text of
/// the reference spells no Rust path.
pub open spec fn reference_tokens(proto_path: Seq<char>, rust_type: Seq<char>) -> Option<
    Seq<Seq<char>>,
> {
    if rust_type.len() == 0 {
        None
    } else {
        path_token_trees(type_reference(proto_path, rust_type))
    }
}

/// The reference to the Rust path of a protobuf type is the qualified type of
/// its protobuf path.
pub proof fn lemma_reference_is_qualified_type(path: Seq<char>, proto_root: Seq<char>)
    ensures
        type_reference(proto_root, rust_path(path)) == qualified_type(path, proto_root),
{
}

fn convert_type(proto_path: &str, rust_type: &str) -> (tokens: Option<TokenStream>)
    ensures
        match tokens {
            Some(stream) => reference_tokens(proto_path@, rust_type@) == Some(token_trees(stream)),
            None => reference_tokens(proto_path@, rust_type@) is None,
        },
{
    if rust_type.unicode_len() == 0 {
        None
    } else {
        let mut reference = proto_path.to_owned();
        reference.append(rust_type);
        parse_path(reference.as_str())
    }
}

impl Service {
    /// The name of the service.
    pub fn name(&self) -> (name: &str)
        ensures
            name@ == self.name@,
    {
        self.name.as_str()
    }

    /// The package of the service.
    pub fn package(&self) -> (package: &str)
        ensures
            package@ == self.package@,
    {
        self.package.as_str()
    }

    /// The name of the service as routes spell it: the name itself.
    pub fn identifier(&self) -> (identifier: &str)
        ensures
            identifier@ == self.name@,
    {
        self.name.as_str()
    }

    /// The methods of the service, in order.
    pub fn methods(&self) -> (methods: &[Method])
        ensures
            methods@ == self.methods@,
    {
        self.methods.as_slice()
    }

    /// The comment lines of the service: there are none.
    pub fn comment(&self) -> (comment: &[String])
        ensures
            comment@.len() == 0,
    {
        &[]
    }
}

impl Method {
    /// The name of the method in Rust style.
    pub fn name(&self) -> (name: &str)
        ensures
            name@ == self.name@,
    {
        self.name.as_str()
    }

    /// The name of the method as routes spell it: the name of the rpc as the
    /// `.proto` file has it.
    pub fn identifier(&self) -> (identifier: &str)
        ensures
            identifier@ == self.route_name@,
    {
        self.route_name.as_str()
    }

    /// The path to the codec of the method.
    pub fn codec_path(&self) -> (codec_path: &str)
        ensures
            codec_path@ == self.codec_path@,
    {
        self.codec_path.as_str()
    }

    /// Whether the client streams multiple messages.
    pub fn client_streaming(&self) -> (streaming: bool)
        ensures
            streaming == self.client_streaming,
    {
        self.client_streaming
    }

    /// Whether the server streams multiple messages.
    pub fn server_streaming(&self) -> (streaming: bool)
        ensures
            streaming == self.server_streaming,
    {
        self.server_streaming
    }

    /// The comment lines of the method: there are none.
    pub fn comment(&self) -> (comment: &[String])
        ensures
            comment@.len() == 0,
    {
        &[]
    }

    /// The request and the response type as generated code below `proto_path`
    /// names them, each as the tokens of its path.
    ///
    /// There is no pair where a type is empty, nor where the text of a
    /// reference spells no Rust path.
    pub fn request_response_name(
        &self,
        proto_path: &str,
        _compile_well_known_types: bool,
    ) -> (names: Option<(TokenStream, TokenStream)>)
        ensures
            match names {
                Some((request, response)) => {
                    &&& reference_tokens(proto_path@, self.input_type@) == Some(
                        token_trees(request),
                    )
                    &&& reference_tokens(proto_path@, self.output_type@) == Some(
                        token_trees(response),
                    )
                },
                None => {
                    ||| reference_tokens(proto_path@, self.input_type@) is None
                    ||| reference_tokens(proto_path@, self.output_type@) is None
                },
            },
    {
        let request = convert_type(proto_path, self.input_type.as_str());
        let response = convert_type(proto_path, self.output_type.as_str());
        match (request, response) {
            (Some(request), Some(response)) => Some((request, response)),
            _ => None,
        }
    }
}

} // verus!
