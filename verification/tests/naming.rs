use tonic_build_protobuf::naming::protobuf_path_to_rust_mod;
use tonic_build_protobuf::naming::protobuf_path_to_rust_path;
use tonic_build_protobuf::naming::rust_method_name_convention;
use tonic_build_protobuf::naming::rust_mod_name_convention;
use tonic_build_protobuf::naming::rust_struct_name_convention;

#[test]
fn module_names_are_snake_case() {
    assert_eq!(rust_mod_name_convention("testing_Streaming"), "testing_streaming");
    assert_eq!(rust_mod_name_convention("debugpb_Debug_tonic"), "debugpb_debug_tonic");
    assert_eq!(rust_mod_name_convention("XMLHttpRequest"), "xml_http_request");
}

#[test]
fn method_names_are_snake_case() {
    assert_eq!(rust_method_name_convention("GetUnary"), "get_unary");
    assert_eq!(rust_method_name_convention("GetBidirectionalStreaming"), "get_bidirectional_streaming");
    assert_eq!(rust_method_name_convention("already_snake"), "already_snake");
}

#[test]
fn struct_names_are_upper_camel_case() {
    assert_eq!(rust_struct_name_convention("get_request"), "GetRequest");
    assert_eq!(rust_struct_name_convention("GetRequest"), "GetRequest");
    assert_eq!(rust_struct_name_convention("msg"), "Msg");
}

#[test]
fn module_is_last_segment_of_package() {
    assert_eq!(protobuf_path_to_rust_mod(".package_1.package_2.package_3"), "package_3");
    assert_eq!(protobuf_path_to_rust_mod("a.b.c"), "c");
    assert_eq!(protobuf_path_to_rust_mod("testing"), "testing");
}

#[test]
fn module_of_empty_package_is_empty() {
    assert_eq!(protobuf_path_to_rust_mod(""), "");
    assert_eq!(protobuf_path_to_rust_mod("a."), "");
}

#[test]
fn rust_path_of_absolute_type() {
    assert_eq!(protobuf_path_to_rust_path(".package.Message"), "::package::Message");
    assert_eq!(protobuf_path_to_rust_path(".pkg.sub.Msg"), "::pkg::sub::Msg");
}

#[test]
fn rust_path_keeps_namespaces_and_converts_type_name() {
    assert_eq!(protobuf_path_to_rust_path(".my_pkg.get_request"), "::my_pkg::GetRequest");
    assert_eq!(protobuf_path_to_rust_path(".MyPkg.Inner.msg"), "::MyPkg::Inner::Msg");
}

#[test]
fn root_marker_does_not_change_rust_path() {
    assert_eq!(protobuf_path_to_rust_path(".pkg.Msg"), protobuf_path_to_rust_path("pkg.Msg"));
    assert_eq!(protobuf_path_to_rust_path("pkg.Msg"), "::pkg::Msg");
    assert_eq!(protobuf_path_to_rust_path(".Msg"), protobuf_path_to_rust_path("Msg"));
}

#[test]
fn rust_path_of_single_segment() {
    assert_eq!(protobuf_path_to_rust_path("Msg"), "::Msg");
    assert_eq!(protobuf_path_to_rust_path("get_response"), "::GetResponse");
}

#[test]
fn rust_path_skips_only_the_leading_empty_segment() {
    assert_eq!(protobuf_path_to_rust_path("a..B"), "::a::::B");
    assert_eq!(protobuf_path_to_rust_path("..B"), "::::B");
}

#[test]
fn rust_path_of_empty_path() {
    assert_eq!(protobuf_path_to_rust_path(""), "::");
    assert_eq!(protobuf_path_to_rust_path("."), "::");
}

#[test]
fn rust_path_with_characters_beyond_ascii() {
    assert_eq!(protobuf_path_to_rust_path(".größe.Maß"), "::größe::Maß");
    assert_eq!(protobuf_path_to_rust_mod("ä.ö.ü"), "ü");
}
