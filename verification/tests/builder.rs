use std::path::PathBuf;
use tonic_build_protobuf::builder::Builder;
use tonic_build_protobuf::model::Service;

fn service(package: &str, name: &str) -> Service {
    Service { name: name.to_owned(), package: package.to_owned(), methods: vec![] }
}

#[test]
fn new_builder_has_defaults() {
    let builder = Builder::new();
    assert_eq!(builder.proto_path, "super");
    assert_eq!(builder.codec_path, "::tonic_codec_protobuf::ProtobufCodecV3");
    assert!(builder.build_server);
    assert!(builder.build_client);
    assert!(builder.build_transport);
    assert_eq!(builder.out_dir, None);
}

#[test]
fn default_builder_is_new_builder() {
    let builder = Builder::default();
    let new = Builder::new();
    assert_eq!(builder.proto_path, new.proto_path);
    assert_eq!(builder.codec_path, new.codec_path);
    assert_eq!(builder.build_server, new.build_server);
    assert_eq!(builder.build_client, new.build_client);
    assert_eq!(builder.build_transport, new.build_transport);
    assert_eq!(builder.out_dir, new.out_dir);
}

#[test]
fn codec_path_overrides_default() {
    let builder = Builder::new().codec_path("crate::MyCodec");
    assert_eq!(builder.codec_path, "crate::MyCodec");
    assert_eq!(builder.proto_path, "super");
    assert!(builder.build_server && builder.build_client && builder.build_transport);
}

#[test]
fn proto_path_overrides_default() {
    let builder = Builder::new().proto_path("crate");
    assert_eq!(builder.proto_path, "crate");
    assert_eq!(builder.codec_path, "::tonic_codec_protobuf::ProtobufCodecV3");
}

#[test]
fn halves_are_switched_one_by_one() {
    let builder = Builder::new().build_client(false);
    assert!(!builder.build_client);
    assert!(builder.build_server);
    assert!(builder.build_transport);
    let builder = builder.build_server(false).build_client(true);
    assert!(builder.build_client);
    assert!(!builder.build_server);
    let builder = builder.build_transport(false);
    assert!(!builder.build_transport);
    assert!(builder.build_client);
    assert!(!builder.build_server);
}

#[test]
fn out_dir_is_kept() {
    let builder = Builder::new().out_dir(PathBuf::from("target/protos"));
    assert_eq!(builder.out_dir, Some(PathBuf::from("target/protos")));
    assert_eq!(builder.proto_path, "super");
}

#[test]
fn setters_keep_what_was_set_before() {
    let builder = Builder::new()
        .out_dir(PathBuf::from("out"))
        .proto_path("crate")
        .codec_path("my::Codec")
        .build_transport(false)
        .file_name(|pkg, svc| format!("{pkg}_{svc}_tonic"));
    assert_eq!(builder.out_dir, Some(PathBuf::from("out")));
    assert_eq!(builder.proto_path, "crate");
    assert_eq!(builder.codec_path, "my::Codec");
    assert!(!builder.build_transport);
    assert!(builder.build_client);
    assert!(builder.build_server);
}

#[test]
fn default_file_name_is_package_and_service() {
    let builder = Builder::new();
    assert_eq!(builder.module_file_name(&service("testing", "Streaming")), "testing_streaming.rs");
}

#[test]
fn default_file_name_becomes_a_module_name() {
    let builder = Builder::new();
    assert_eq!(builder.module_file_name(&service("debugpb", "DebugService")), "debugpb_debug_service.rs");
    assert_eq!(builder.module_file_name(&service("", "Echo")), "echo.rs");
}

#[test]
fn file_name_function_names_the_file() {
    let builder = Builder::new().file_name(|pkg, svc| format!("{pkg}_{svc}_tonic"));
    assert_eq!(builder.module_file_name(&service("debugpb", "Debug")), "debugpb_debug_tonic.rs");
}

#[test]
fn file_name_function_gets_package_then_service() {
    let builder = Builder::new().file_name(|pkg, svc| format!("{svc}Of{pkg}"));
    assert_eq!(builder.module_file_name(&service("testing", "Streaming")), "streaming_oftesting.rs");
}

#[test]
fn services_of_one_package_get_files_of_their_own() {
    let builder = Builder::new();
    let first = builder.module_file_name(&service("testing", "Streaming"));
    let second = builder.module_file_name(&service("testing", "Unary"));
    assert_eq!(first, "testing_streaming.rs");
    assert_eq!(second, "testing_unary.rs");
    assert_ne!(first, second);
}
