use proc_macro2::TokenStream;
use tonic_build_protobuf::builder::Builder;
use tonic_build_protobuf::generator::CodeGenOptions;
use tonic_build_protobuf::generator::Fragments;
use tonic_build_protobuf::generator::ServiceGenerator;

fn tokens(source: &str) -> TokenStream {
    source.parse().unwrap()
}

fn text(half: &Option<TokenStream>) -> Option<String> {
    half.as_ref().map(|tokens| tokens.to_string())
}

fn both(server: &str, client: &str) -> Fragments<TokenStream> {
    Fragments { client: Some(tokens(client)), server: Some(tokens(server)) }
}

#[test]
fn code_gen_options_follow_the_builder() {
    let generator = ServiceGenerator::new(Builder::new());
    assert_eq!(
        generator.code_gen_options(),
        CodeGenOptions {
            server: true,
            client: true,
            emit_package: true,
            compile_well_known_types: false,
            build_transport: true,
        }
    );
    let generator =
        ServiceGenerator::new(Builder::new().build_server(false).build_transport(false));
    assert_eq!(
        generator.code_gen_options(),
        CodeGenOptions {
            server: false,
            client: true,
            emit_package: true,
            compile_well_known_types: false,
            build_transport: false,
        }
    );
}

#[test]
fn options_are_those_of_the_builder() {
    let generator = ServiceGenerator::new(Builder::new().proto_path("crate").build_client(false));
    assert_eq!(generator.options().proto_path, "crate");
    assert!(!generator.options().build_client);
    assert!(generator.options().build_server);
}

#[test]
fn new_generator_flushes_nothing() {
    let mut generator = ServiceGenerator::new(Builder::new());
    let flushed = generator.finalize();
    assert!(flushed.client.is_none());
    assert!(flushed.server.is_none());
}

#[test]
fn generated_code_is_flushed() {
    let mut generator = ServiceGenerator::new(Builder::new());
    generator.generate(both("pub mod server { }", "pub mod client { }"));
    let flushed = generator.finalize();
    assert_eq!(text(&flushed.client), Some(tokens("pub mod client { }").to_string()));
    assert_eq!(text(&flushed.server), Some(tokens("pub mod server { }").to_string()));
}

#[test]
fn generator_is_empty_after_flush() {
    let mut generator = ServiceGenerator::new(Builder::new());
    generator.generate(both("struct S;", "struct C;"));
    let first = generator.finalize();
    assert!(first.client.is_some() && first.server.is_some());
    let second = generator.finalize();
    assert!(second.client.is_none());
    assert!(second.server.is_none());
}

#[test]
fn services_flushed_one_by_one_stay_apart() {
    let mut generator = ServiceGenerator::new(Builder::new());
    generator.generate(both("struct S1;", "struct C1;"));
    let first = generator.finalize();
    generator.generate(both("struct S2;", "struct C2;"));
    let second = generator.finalize();
    assert_eq!(text(&first.client), Some(tokens("struct C1;").to_string()));
    assert_eq!(text(&first.server), Some(tokens("struct S1;").to_string()));
    assert_eq!(text(&second.client), Some(tokens("struct C2;").to_string()));
    assert_eq!(text(&second.server), Some(tokens("struct S2;").to_string()));
}

#[test]
fn services_without_flush_between_them_add_up() {
    let mut generator = ServiceGenerator::new(Builder::new());
    generator.generate(both("struct S1;", "struct C1;"));
    generator.generate(both("struct S2;", "struct C2;"));
    let flushed = generator.finalize();
    assert_eq!(text(&flushed.client), Some(tokens("struct C1; struct C2;").to_string()));
    assert_eq!(text(&flushed.server), Some(tokens("struct S1; struct S2;").to_string()));
}

#[test]
fn half_that_is_switched_off_collects_nothing() {
    let mut generator = ServiceGenerator::new(Builder::new().build_client(false));
    generator.generate(both("struct S;", "struct C;"));
    let flushed = generator.finalize();
    assert!(flushed.client.is_none());
    assert_eq!(text(&flushed.server), Some(tokens("struct S;").to_string()));

    let mut generator = ServiceGenerator::new(Builder::new().build_server(false));
    generator.generate(both("struct S;", "struct C;"));
    let flushed = generator.finalize();
    assert_eq!(text(&flushed.client), Some(tokens("struct C;").to_string()));
    assert!(flushed.server.is_none());
}

#[test]
fn half_that_is_not_there_adds_nothing() {
    let mut generator = ServiceGenerator::new(Builder::new());
    generator.generate(Fragments { client: None, server: Some(tokens("struct S;")) });
    generator.generate(Fragments { client: None, server: None });
    let flushed = generator.finalize();
    assert!(flushed.client.is_none());
    assert_eq!(text(&flushed.server), Some(tokens("struct S;").to_string()));
}

#[test]
fn empty_code_is_not_flushed() {
    let mut generator = ServiceGenerator::new(Builder::new());
    generator.generate(both("", "struct C;"));
    let flushed = generator.finalize();
    assert!(flushed.server.is_none());
    assert!(flushed.client.is_some());
}

#[test]
fn clients_are_written_before_servers() {
    let rendered =
        Fragments { client: Some("client\n".to_owned()), server: Some("server\n".to_owned()) };
    let mut buf = String::new();
    rendered.write_to(&mut buf);
    assert_eq!(buf, "client\nserver\n");
}

#[test]
fn written_code_goes_after_what_is_there() {
    let rendered = Fragments { client: None, server: Some("server\n".to_owned()) };
    let mut buf = "// head\n".to_owned();
    rendered.write_to(&mut buf);
    assert_eq!(buf, "// head\nserver\n");
    let rendered = Fragments { client: Some("client\n".to_owned()), server: None };
    rendered.write_to(&mut buf);
    assert_eq!(buf, "// head\nserver\nclient\n");
}

#[test]
fn no_halves_write_nothing() {
    let rendered: Fragments<String> = Fragments { client: None, server: None };
    let mut buf = "kept".to_owned();
    rendered.write_to(&mut buf);
    assert_eq!(buf, "kept");
}
