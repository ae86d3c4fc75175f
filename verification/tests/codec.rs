use protobuf::descriptor::MethodDescriptorProto;
use protobuf::Message;
use tonic_build_protobuf::codec::from_decode_error;
use tonic_build_protobuf::codec::Code;
use tonic_build_protobuf::codec::Status;
use tonic_build_protobuf::ProtobufCodecV2;
use tonic_build_protobuf::ProtobufCodecV3;
use tonic_build_protobuf::ProtobufDecoderV2;
use tonic_build_protobuf::ProtobufDecoderV3;
use tonic_build_protobuf::ProtobufEncoderV2;
use tonic_build_protobuf::ProtobufEncoderV3;

fn parse(bytes: &[u8]) -> Result<MethodDescriptorProto, String> {
    MethodDescriptorProto::parse_from_bytes(bytes).map_err(|error| error.to_string())
}

fn message() -> MethodDescriptorProto {
    let mut message = MethodDescriptorProto::new();
    message.set_name("GetUnary".to_owned());
    message.set_input_type(".testing.GetRequest".to_owned());
    message.set_client_streaming(true);
    message
}

#[test]
fn decode_error_is_internal() {
    let status = from_decode_error("unexpected EOF".to_owned());
    assert_eq!(status, Status { code: Code::Internal, message: "unexpected EOF".to_owned() });
    assert_eq!(status.code(), Code::Internal);
    assert_eq!(status.message(), "unexpected EOF");
}

#[test]
fn status_keeps_code_and_message() {
    let status = Status::new(Code::NotFound, "no such thing".to_owned());
    assert_eq!(status.code(), Code::NotFound);
    assert_eq!(status.message(), "no such thing");
}

#[test]
fn decoder_returns_the_parsed_message() {
    let bytes = message().write_to_bytes().unwrap();
    let mut decoder = ProtobufDecoderV3::<MethodDescriptorProto>::new();
    assert_eq!(decoder.decode(bytes.len(), parse(&bytes)), Ok(Some(message())));
}

#[test]
fn decoded_message_encodes_to_the_same_bytes() {
    let bytes = message().write_to_bytes().unwrap();
    let mut codec = ProtobufCodecV3::<MethodDescriptorProto, MethodDescriptorProto>::default();
    let decoded = codec.decoder().decode(bytes.len(), parse(&bytes)).unwrap().unwrap();
    let mut written = Vec::new();
    let outcome = decoded.write_to_writer(&mut written).map_err(|error| error.to_string());
    assert_eq!(codec.encoder().encode(outcome), Ok(()));
    assert_eq!(written, bytes);
}

#[test]
fn malformed_bytes_give_internal_error() {
    let parsed = parse(&[0xff, 0xff, 0xff]);
    let text = parsed.clone().unwrap_err();
    let mut decoder = ProtobufDecoderV3::<MethodDescriptorProto>::new();
    let status = decoder.decode(3, parsed).unwrap_err();
    assert_eq!(status.code, Code::Internal);
    assert_eq!(status.message, text);
}

#[test]
fn truncated_bytes_give_internal_error() {
    let mut bytes = message().write_to_bytes().unwrap();
    bytes.truncate(bytes.len() - 1);
    let mut decoder = ProtobufDecoderV3::<MethodDescriptorProto>::new();
    let status = decoder.decode(bytes.len(), parse(&bytes)).unwrap_err();
    assert_eq!(status.code(), Code::Internal);
    assert_ne!(status.code(), Code::InvalidArgument);
}

#[test]
fn empty_input_is_no_message() {
    let mut decoder = ProtobufDecoderV3::<MethodDescriptorProto>::new();
    assert_eq!(decoder.decode(0, parse(&[])), Ok(None));
    let mut decoder = ProtobufDecoderV2::<MethodDescriptorProto>::new();
    assert_eq!(decoder.decode(0, parse(&[])), Ok(None));
}

#[test]
fn empty_input_is_neither_message_nor_failure() {
    let mut decoder = ProtobufDecoderV3::<u32>::new();
    assert_eq!(decoder.decode(0, Ok(7)), Ok(None));
    assert_eq!(decoder.decode(0, Err("nothing to read".to_owned())), Ok(None));
    assert_eq!(decoder.decode(1, Ok(7)), Ok(Some(7)));
}

#[test]
fn encoder_accepts_a_written_message() {
    let mut encoder = ProtobufEncoderV3::<MethodDescriptorProto>::default();
    assert_eq!(encoder.encode(Ok(())), Ok(()));
    let mut encoder = ProtobufEncoderV2::<MethodDescriptorProto>::default();
    assert_eq!(encoder.encode(Ok(())), Ok(()));
}

#[test]
fn second_codec_decodes_alike() {
    let bytes = message().write_to_bytes().unwrap();
    let mut codec = ProtobufCodecV2::<MethodDescriptorProto, MethodDescriptorProto>::default();
    let _encoder = codec.encoder();
    assert_eq!(codec.decoder().decode(bytes.len(), parse(&bytes)), Ok(Some(message())));
    let mut decoder = ProtobufDecoderV2::<MethodDescriptorProto>::new();
    let status = decoder.decode(1, parse(&[0x0a])).unwrap_err();
    assert_eq!(status.code, Code::Internal);
}

#[test]
fn decoder_keeps_any_item() {
    let mut decoder = ProtobufDecoderV3::<u32>::new();
    assert_eq!(decoder.decode(4, Ok(7)), Ok(Some(7)));
    assert_eq!(
        decoder.clone().decode(4, Err("bad".to_owned())),
        Err(Status { code: Code::Internal, message: "bad".to_owned() })
    );
}
