//! Building gRPC service bindings from protobuf service descriptors, and the
//! message codec the generated bindings use on the wire.

pub mod builder;
pub mod codec;
pub mod descriptor;
pub mod generator;
pub mod model;
pub mod module_index;
pub mod naming;
pub mod tokens;

pub use builder::Builder;
pub use codec::ProtobufCodecV2;
pub use codec::ProtobufCodecV3;
pub use codec::ProtobufDecoderV2;
pub use codec::ProtobufDecoderV3;
pub use codec::ProtobufEncoderV2;
pub use codec::ProtobufEncoderV3;
